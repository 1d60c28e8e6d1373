//! Square matrices of sizes two to four: determinants by cofactor
//! expansion, the adjugate-over-determinant inverse, and the transform
//! builders.
//!
//! A matrix is invertible when its determinant is at least the engine
//! tolerance away from zero; an exact-zero test would be fragile at this
//! precision, exactly as it is for floating point.

use vstd::prelude::*;

use crate::ApproxEq;
use crate::fx::{
    Fx, SCALE, EPSILON_RAW, RAW_LIMIT, abs_int, spec_add, spec_sub, spec_mul, spec_div, spec_neg, spec_approx,
};
use crate::trig::{sin_fx, cos_fx, spec_sin, spec_cos};
use crate::tuple::{Point, Vector, spec_vec, spec_point, spec_psub, spec_normalized, spec_cross};

verus! {

/// Why a matrix operation failed.
#[derive(Clone, Copy, Debug, PartialEq, Eq, Structural)]
pub enum MatrixError {
    /// The matrix's determinant is within tolerance of zero.
    NotInvertible,
}

#[derive(Clone, Copy, Debug, PartialEq, Eq, Structural)]
pub struct Matrix2 {
    pub m00: Fx,
    pub m01: Fx,
    pub m10: Fx,
    pub m11: Fx,
}

#[derive(Clone, Copy, Debug, PartialEq, Eq, Structural)]
pub struct Matrix3 {
    pub m00: Fx,
    pub m01: Fx,
    pub m02: Fx,
    pub m10: Fx,
    pub m11: Fx,
    pub m12: Fx,
    pub m20: Fx,
    pub m21: Fx,
    pub m22: Fx,
}

#[derive(Clone, Copy, Debug, PartialEq, Eq, Structural)]
pub struct Matrix4 {
    pub m00: Fx,
    pub m01: Fx,
    pub m02: Fx,
    pub m03: Fx,
    pub m10: Fx,
    pub m11: Fx,
    pub m12: Fx,
    pub m13: Fx,
    pub m20: Fx,
    pub m21: Fx,
    pub m22: Fx,
    pub m23: Fx,
    pub m30: Fx,
    pub m31: Fx,
    pub m32: Fx,
    pub m33: Fx,
}

/// The matrix of raw entry values.
pub open spec fn spec_mat2(e00: int, e01: int, e10: int, e11: int) -> Matrix2 {
    Matrix2 { m00: Fx { raw: e00 as i64 }, m01: Fx { raw: e01 as i64 }, m10: Fx { raw: e10 as i64 }, m11: Fx { raw: e11 as i64 } }
}

/// The matrix of raw entry values.
pub open spec fn spec_mat3(e00: int, e01: int, e02: int, e10: int, e11: int, e12: int, e20: int, e21: int, e22: int) -> Matrix3 {
    Matrix3 { m00: Fx { raw: e00 as i64 }, m01: Fx { raw: e01 as i64 }, m02: Fx { raw: e02 as i64 }, m10: Fx { raw: e10 as i64 }, m11: Fx { raw: e11 as i64 }, m12: Fx { raw: e12 as i64 }, m20: Fx { raw: e20 as i64 }, m21: Fx { raw: e21 as i64 }, m22: Fx { raw: e22 as i64 } }
}

/// The matrix of raw entry values.
pub open spec fn spec_mat4(e00: int, e01: int, e02: int, e03: int, e10: int, e11: int, e12: int, e13: int, e20: int, e21: int, e22: int, e23: int, e30: int, e31: int, e32: int, e33: int) -> Matrix4 {
    Matrix4 { m00: Fx { raw: e00 as i64 }, m01: Fx { raw: e01 as i64 }, m02: Fx { raw: e02 as i64 }, m03: Fx { raw: e03 as i64 }, m10: Fx { raw: e10 as i64 }, m11: Fx { raw: e11 as i64 }, m12: Fx { raw: e12 as i64 }, m13: Fx { raw: e13 as i64 }, m20: Fx { raw: e20 as i64 }, m21: Fx { raw: e21 as i64 }, m22: Fx { raw: e22 as i64 }, m23: Fx { raw: e23 as i64 }, m30: Fx { raw: e30 as i64 }, m31: Fx { raw: e31 as i64 }, m32: Fx { raw: e32 as i64 }, m33: Fx { raw: e33 as i64 } }
}

pub open spec fn spec_det2(m: Matrix2) -> int {
    spec_sub(spec_mul(m.m00.rv(), m.m11.rv()), spec_mul(m.m01.rv(), m.m10.rv()))
}

/// The matrix with row `r` and column `c` removed.
pub open spec fn spec_sub3(m: Matrix3, r: int, c: int) -> Matrix2
    recommends
        0 <= r < 3,
        0 <= c < 3,
{
    if r == 0 { if c == 0 { spec_mat2(m.m11.rv(), m.m12.rv(), m.m21.rv(), m.m22.rv()) } else if c == 1 { spec_mat2(m.m10.rv(), m.m12.rv(), m.m20.rv(), m.m22.rv()) } else { spec_mat2(m.m10.rv(), m.m11.rv(), m.m20.rv(), m.m21.rv()) } } else if r == 1 { if c == 0 { spec_mat2(m.m01.rv(), m.m02.rv(), m.m21.rv(), m.m22.rv()) } else if c == 1 { spec_mat2(m.m00.rv(), m.m02.rv(), m.m20.rv(), m.m22.rv()) } else { spec_mat2(m.m00.rv(), m.m01.rv(), m.m20.rv(), m.m21.rv()) } } else { if c == 0 { spec_mat2(m.m01.rv(), m.m02.rv(), m.m11.rv(), m.m12.rv()) } else if c == 1 { spec_mat2(m.m00.rv(), m.m02.rv(), m.m10.rv(), m.m12.rv()) } else { spec_mat2(m.m00.rv(), m.m01.rv(), m.m10.rv(), m.m11.rv()) } }
}

pub open spec fn spec_minor3(m: Matrix3, r: int, c: int) -> int {
    spec_det2(spec_sub3(m, r, c))
}

pub open spec fn spec_cof3(m: Matrix3, r: int, c: int) -> int {
    if (r + c) % 2 == 0 {
        spec_minor3(m, r, c)
    } else {
        spec_neg(spec_minor3(m, r, c))
    }
}

/// Cofactor expansion along the first row.
pub open spec fn spec_det3(m: Matrix3) -> int {
    spec_add(
        spec_add(
            spec_mul(m.m00.rv(), spec_cof3(m, 0, 0)),
            spec_mul(m.m01.rv(), spec_cof3(m, 0, 1)),
        ),
        spec_mul(m.m02.rv(), spec_cof3(m, 0, 2)),
    )
}

/// The matrix with row `r` and column `c` removed.
pub open spec fn spec_sub4(m: Matrix4, r: int, c: int) -> Matrix3
    recommends
        0 <= r < 4,
        0 <= c < 4,
{
    if r == 0 { if c == 0 { spec_mat3(m.m11.rv(), m.m12.rv(), m.m13.rv(), m.m21.rv(), m.m22.rv(), m.m23.rv(), m.m31.rv(), m.m32.rv(), m.m33.rv()) } else if c == 1 { spec_mat3(m.m10.rv(), m.m12.rv(), m.m13.rv(), m.m20.rv(), m.m22.rv(), m.m23.rv(), m.m30.rv(), m.m32.rv(), m.m33.rv()) } else if c == 2 { spec_mat3(m.m10.rv(), m.m11.rv(), m.m13.rv(), m.m20.rv(), m.m21.rv(), m.m23.rv(), m.m30.rv(), m.m31.rv(), m.m33.rv()) } else { spec_mat3(m.m10.rv(), m.m11.rv(), m.m12.rv(), m.m20.rv(), m.m21.rv(), m.m22.rv(), m.m30.rv(), m.m31.rv(), m.m32.rv()) } } else if r == 1 { if c == 0 { spec_mat3(m.m01.rv(), m.m02.rv(), m.m03.rv(), m.m21.rv(), m.m22.rv(), m.m23.rv(), m.m31.rv(), m.m32.rv(), m.m33.rv()) } else if c == 1 { spec_mat3(m.m00.rv(), m.m02.rv(), m.m03.rv(), m.m20.rv(), m.m22.rv(), m.m23.rv(), m.m30.rv(), m.m32.rv(), m.m33.rv()) } else if c == 2 { spec_mat3(m.m00.rv(), m.m01.rv(), m.m03.rv(), m.m20.rv(), m.m21.rv(), m.m23.rv(), m.m30.rv(), m.m31.rv(), m.m33.rv()) } else { spec_mat3(m.m00.rv(), m.m01.rv(), m.m02.rv(), m.m20.rv(), m.m21.rv(), m.m22.rv(), m.m30.rv(), m.m31.rv(), m.m32.rv()) } } else if r == 2 { if c == 0 { spec_mat3(m.m01.rv(), m.m02.rv(), m.m03.rv(), m.m11.rv(), m.m12.rv(), m.m13.rv(), m.m31.rv(), m.m32.rv(), m.m33.rv()) } else if c == 1 { spec_mat3(m.m00.rv(), m.m02.rv(), m.m03.rv(), m.m10.rv(), m.m12.rv(), m.m13.rv(), m.m30.rv(), m.m32.rv(), m.m33.rv()) } else if c == 2 { spec_mat3(m.m00.rv(), m.m01.rv(), m.m03.rv(), m.m10.rv(), m.m11.rv(), m.m13.rv(), m.m30.rv(), m.m31.rv(), m.m33.rv()) } else { spec_mat3(m.m00.rv(), m.m01.rv(), m.m02.rv(), m.m10.rv(), m.m11.rv(), m.m12.rv(), m.m30.rv(), m.m31.rv(), m.m32.rv()) } } else { if c == 0 { spec_mat3(m.m01.rv(), m.m02.rv(), m.m03.rv(), m.m11.rv(), m.m12.rv(), m.m13.rv(), m.m21.rv(), m.m22.rv(), m.m23.rv()) } else if c == 1 { spec_mat3(m.m00.rv(), m.m02.rv(), m.m03.rv(), m.m10.rv(), m.m12.rv(), m.m13.rv(), m.m20.rv(), m.m22.rv(), m.m23.rv()) } else if c == 2 { spec_mat3(m.m00.rv(), m.m01.rv(), m.m03.rv(), m.m10.rv(), m.m11.rv(), m.m13.rv(), m.m20.rv(), m.m21.rv(), m.m23.rv()) } else { spec_mat3(m.m00.rv(), m.m01.rv(), m.m02.rv(), m.m10.rv(), m.m11.rv(), m.m12.rv(), m.m20.rv(), m.m21.rv(), m.m22.rv()) } }
}

pub open spec fn spec_minor4(m: Matrix4, r: int, c: int) -> int {
    spec_det3(spec_sub4(m, r, c))
}

pub open spec fn spec_cof4(m: Matrix4, r: int, c: int) -> int {
    if (r + c) % 2 == 0 {
        spec_minor4(m, r, c)
    } else {
        spec_neg(spec_minor4(m, r, c))
    }
}

/// Cofactor expansion along the first row.
pub open spec fn spec_det4(m: Matrix4) -> int {
    spec_add(
        spec_add(
            spec_add(
                spec_mul(m.m00.rv(), spec_cof4(m, 0, 0)),
                spec_mul(m.m01.rv(), spec_cof4(m, 0, 1)),
            ),
            spec_mul(m.m02.rv(), spec_cof4(m, 0, 2)),
        ),
        spec_mul(m.m03.rv(), spec_cof4(m, 0, 3)),
    )
}

/// A matrix is invertible when its determinant is not within tolerance
/// of zero.
pub open spec fn spec_invertible(m: Matrix4) -> bool {
    abs_int(spec_det4(m)) >= EPSILON_RAW
}

/// The adjugate-over-determinant inverse: entry `(r, c)` is the cofactor
/// of `(c, r)` divided by the determinant.
pub open spec fn spec_inverse4(m: Matrix4) -> Matrix4 {
    let d = spec_det4(m);

    spec_mat4(
        spec_div(spec_cof4(m, 0, 0), d),
        spec_div(spec_cof4(m, 1, 0), d),
        spec_div(spec_cof4(m, 2, 0), d),
        spec_div(spec_cof4(m, 3, 0), d),
        spec_div(spec_cof4(m, 0, 1), d),
        spec_div(spec_cof4(m, 1, 1), d),
        spec_div(spec_cof4(m, 2, 1), d),
        spec_div(spec_cof4(m, 3, 1), d),
        spec_div(spec_cof4(m, 0, 2), d),
        spec_div(spec_cof4(m, 1, 2), d),
        spec_div(spec_cof4(m, 2, 2), d),
        spec_div(spec_cof4(m, 3, 2), d),
        spec_div(spec_cof4(m, 0, 3), d),
        spec_div(spec_cof4(m, 1, 3), d),
        spec_div(spec_cof4(m, 2, 3), d),
        spec_div(spec_cof4(m, 3, 3), d),
    )
}

/// The matrix product, each entry a nested sum of scaled products.
pub open spec fn spec_mat_mul(a: Matrix4, b: Matrix4) -> Matrix4 {
    spec_mat4(
        spec_add(spec_mul(a.m00.rv(), b.m00.rv()), spec_add(spec_mul(a.m01.rv(), b.m10.rv()), spec_add(spec_mul(a.m02.rv(), b.m20.rv()), spec_mul(a.m03.rv(), b.m30.rv())))),
        spec_add(spec_mul(a.m00.rv(), b.m01.rv()), spec_add(spec_mul(a.m01.rv(), b.m11.rv()), spec_add(spec_mul(a.m02.rv(), b.m21.rv()), spec_mul(a.m03.rv(), b.m31.rv())))),
        spec_add(spec_mul(a.m00.rv(), b.m02.rv()), spec_add(spec_mul(a.m01.rv(), b.m12.rv()), spec_add(spec_mul(a.m02.rv(), b.m22.rv()), spec_mul(a.m03.rv(), b.m32.rv())))),
        spec_add(spec_mul(a.m00.rv(), b.m03.rv()), spec_add(spec_mul(a.m01.rv(), b.m13.rv()), spec_add(spec_mul(a.m02.rv(), b.m23.rv()), spec_mul(a.m03.rv(), b.m33.rv())))),
        spec_add(spec_mul(a.m10.rv(), b.m00.rv()), spec_add(spec_mul(a.m11.rv(), b.m10.rv()), spec_add(spec_mul(a.m12.rv(), b.m20.rv()), spec_mul(a.m13.rv(), b.m30.rv())))),
        spec_add(spec_mul(a.m10.rv(), b.m01.rv()), spec_add(spec_mul(a.m11.rv(), b.m11.rv()), spec_add(spec_mul(a.m12.rv(), b.m21.rv()), spec_mul(a.m13.rv(), b.m31.rv())))),
        spec_add(spec_mul(a.m10.rv(), b.m02.rv()), spec_add(spec_mul(a.m11.rv(), b.m12.rv()), spec_add(spec_mul(a.m12.rv(), b.m22.rv()), spec_mul(a.m13.rv(), b.m32.rv())))),
        spec_add(spec_mul(a.m10.rv(), b.m03.rv()), spec_add(spec_mul(a.m11.rv(), b.m13.rv()), spec_add(spec_mul(a.m12.rv(), b.m23.rv()), spec_mul(a.m13.rv(), b.m33.rv())))),
        spec_add(spec_mul(a.m20.rv(), b.m00.rv()), spec_add(spec_mul(a.m21.rv(), b.m10.rv()), spec_add(spec_mul(a.m22.rv(), b.m20.rv()), spec_mul(a.m23.rv(), b.m30.rv())))),
        spec_add(spec_mul(a.m20.rv(), b.m01.rv()), spec_add(spec_mul(a.m21.rv(), b.m11.rv()), spec_add(spec_mul(a.m22.rv(), b.m21.rv()), spec_mul(a.m23.rv(), b.m31.rv())))),
        spec_add(spec_mul(a.m20.rv(), b.m02.rv()), spec_add(spec_mul(a.m21.rv(), b.m12.rv()), spec_add(spec_mul(a.m22.rv(), b.m22.rv()), spec_mul(a.m23.rv(), b.m32.rv())))),
        spec_add(spec_mul(a.m20.rv(), b.m03.rv()), spec_add(spec_mul(a.m21.rv(), b.m13.rv()), spec_add(spec_mul(a.m22.rv(), b.m23.rv()), spec_mul(a.m23.rv(), b.m33.rv())))),
        spec_add(spec_mul(a.m30.rv(), b.m00.rv()), spec_add(spec_mul(a.m31.rv(), b.m10.rv()), spec_add(spec_mul(a.m32.rv(), b.m20.rv()), spec_mul(a.m33.rv(), b.m30.rv())))),
        spec_add(spec_mul(a.m30.rv(), b.m01.rv()), spec_add(spec_mul(a.m31.rv(), b.m11.rv()), spec_add(spec_mul(a.m32.rv(), b.m21.rv()), spec_mul(a.m33.rv(), b.m31.rv())))),
        spec_add(spec_mul(a.m30.rv(), b.m02.rv()), spec_add(spec_mul(a.m31.rv(), b.m12.rv()), spec_add(spec_mul(a.m32.rv(), b.m22.rv()), spec_mul(a.m33.rv(), b.m32.rv())))),
        spec_add(spec_mul(a.m30.rv(), b.m03.rv()), spec_add(spec_mul(a.m31.rv(), b.m13.rv()), spec_add(spec_mul(a.m32.rv(), b.m23.rv()), spec_mul(a.m33.rv(), b.m33.rv())))),
    )
}

pub open spec fn spec_transpose(m: Matrix4) -> Matrix4 {
    spec_mat4(m.m00.rv(), m.m10.rv(), m.m20.rv(), m.m30.rv(), m.m01.rv(), m.m11.rv(), m.m21.rv(), m.m31.rv(), m.m02.rv(), m.m12.rv(), m.m22.rv(), m.m32.rv(), m.m03.rv(), m.m13.rv(), m.m23.rv(), m.m33.rv())
}

pub open spec fn spec_identity() -> Matrix4 {
    spec_mat4(SCALE as int, 0, 0, 0, 0, SCALE as int, 0, 0, 0, 0, SCALE as int, 0, 0, 0, 0, SCALE as int)
}

/// Offsets in the last column.
pub open spec fn spec_translation(x: int, y: int, z: int) -> Matrix4 {
    spec_mat4(SCALE as int, 0, 0, x, 0, SCALE as int, 0, y, 0, 0, SCALE as int, z, 0, 0, 0, SCALE as int)
}

/// Factors on the diagonal.
pub open spec fn spec_scaling(x: int, y: int, z: int) -> Matrix4 {
    spec_mat4(x, 0, 0, 0, 0, y, 0, 0, 0, 0, z, 0, 0, 0, 0, SCALE as int)
}

/// Rotation about the x axis by `a` radians.
pub open spec fn spec_rotation_x(a: int) -> Matrix4 {
    let c = spec_cos(a);
    let s = spec_sin(a);
    spec_mat4(
        SCALE as int, 0, 0, 0,
        0, c, spec_neg(s), 0,
        0, s, c, 0,
        0, 0, 0, SCALE as int,
    )
}

/// Rotation about the y axis by `a` radians.
pub open spec fn spec_rotation_y(a: int) -> Matrix4 {
    let c = spec_cos(a);
    let s = spec_sin(a);
    spec_mat4(
        c, 0, s, 0,
        0, SCALE as int, 0, 0,
        spec_neg(s), 0, c, 0,
        0, 0, 0, SCALE as int,
    )
}

/// Rotation about the z axis by `a` radians.
pub open spec fn spec_rotation_z(a: int) -> Matrix4 {
    let c = spec_cos(a);
    let s = spec_sin(a);
    spec_mat4(
        c, spec_neg(s), 0, 0,
        s, c, 0, 0,
        0, 0, SCALE as int, 0,
        0, 0, 0, SCALE as int,
    )
}

/// Off-diagonal coupling terms.
pub open spec fn spec_shearing(xy: int, xz: int, yx: int, yz: int, zx: int, zy: int) -> Matrix4 {
    spec_mat4(SCALE as int, xy, xz, 0, yx, SCALE as int, yz, 0, zx, zy, SCALE as int, 0, 0, 0, 0, SCALE as int)
}

/// Transforming a point applies the homogeneous weight one: the last
/// column enters the sum.
pub open spec fn spec_mul_point(m: Matrix4, p: Point) -> Point {
    spec_point(
        spec_add(spec_mul(m.m00.rv(), p.x.rv()), spec_add(spec_mul(m.m01.rv(), p.y.rv()), spec_add(spec_mul(m.m02.rv(), p.z.rv()), m.m03.rv()))),
        spec_add(spec_mul(m.m10.rv(), p.x.rv()), spec_add(spec_mul(m.m11.rv(), p.y.rv()), spec_add(spec_mul(m.m12.rv(), p.z.rv()), m.m13.rv()))),
        spec_add(spec_mul(m.m20.rv(), p.x.rv()), spec_add(spec_mul(m.m21.rv(), p.y.rv()), spec_add(spec_mul(m.m22.rv(), p.z.rv()), m.m23.rv()))),
    )
}

/// Transforming a vector applies the homogeneous weight zero: the last
/// column is ignored.
pub open spec fn spec_mul_vec(m: Matrix4, v: Vector) -> Vector {
    spec_vec(
        spec_add(spec_mul(m.m00.rv(), v.x.rv()), spec_add(spec_mul(m.m01.rv(), v.y.rv()), spec_mul(m.m02.rv(), v.z.rv()))),
        spec_add(spec_mul(m.m10.rv(), v.x.rv()), spec_add(spec_mul(m.m11.rv(), v.y.rv()), spec_mul(m.m12.rv(), v.z.rv()))),
        spec_add(spec_mul(m.m20.rv(), v.x.rv()), spec_add(spec_mul(m.m21.rv(), v.y.rv()), spec_mul(m.m22.rv(), v.z.rv()))),
    )
}

/// The orientation of a camera at `from` looking toward `to`, composed
/// with the translation that moves the eye to the origin.
pub open spec fn spec_view_transform(from: Point, to: Point, up: Vector) -> Matrix4 {
    let forward = spec_normalized(spec_psub(to, from));
    let upn = spec_normalized(up);
    let left = spec_cross(forward, upn);
    let true_up = spec_cross(left, forward);
    let orientation = spec_mat4(
        left.x.rv(), left.y.rv(), left.z.rv(), 0,
        true_up.x.rv(), true_up.y.rv(), true_up.z.rv(), 0,
        spec_neg(forward.x.rv()), spec_neg(forward.y.rv()), spec_neg(forward.z.rv()), 0,
        0, 0, 0, SCALE as int,
    );
    spec_mat_mul(
        orientation,
        spec_translation(spec_neg(from.x.rv()), spec_neg(from.y.rv()), spec_neg(from.z.rv())),
    )
}

/// Removing one row and one column of a matrix.
pub trait Submatrix<T> {
    /// Which removals are meaningful.
    spec fn sub_valid(&self, row: int, col: int) -> bool;

    /// The matrix with the row and column removed.
    spec fn spec_submatrix(&self, row: int, col: int) -> T;

    /// Removes the row and the column.
    fn submatrix(&self, row: usize, col: usize) -> (r: T)
        requires
            self.sub_valid(row as int, col as int),
        ensures
            r == self.spec_submatrix(row as int, col as int),
    ;
}

impl Matrix2 {
    pub fn new(e00: Fx, e01: Fx, e10: Fx, e11: Fx) -> (r: Matrix2)
        ensures
            r == (Matrix2 { m00: e00, m01: e01, m10: e10, m11: e11 }),
    {
        Matrix2 { m00: e00, m01: e01, m10: e10, m11: e11 }
    }

    pub fn determinant(&self) -> (r: Fx)
        ensures
            r.rv() == spec_det2(*self),
    {
        self.m00.mul(self.m11).sub(self.m01.mul(self.m10))
    }
}

impl Submatrix<Matrix2> for Matrix3 {
    open spec fn sub_valid(&self, row: int, col: int) -> bool {
        0 <= row < 3 && 0 <= col < 3
    }

    open spec fn spec_submatrix(&self, row: int, col: int) -> Matrix2 {
        spec_sub3(*self, row, col)
    }

    fn submatrix(&self, row: usize, col: usize) -> (r: Matrix2) {
        if row == 0 { if col == 0 { Matrix2 { m00: self.m11, m01: self.m12, m10: self.m21, m11: self.m22 } } else if col == 1 { Matrix2 { m00: self.m10, m01: self.m12, m10: self.m20, m11: self.m22 } } else { Matrix2 { m00: self.m10, m01: self.m11, m10: self.m20, m11: self.m21 } } } else if row == 1 { if col == 0 { Matrix2 { m00: self.m01, m01: self.m02, m10: self.m21, m11: self.m22 } } else if col == 1 { Matrix2 { m00: self.m00, m01: self.m02, m10: self.m20, m11: self.m22 } } else { Matrix2 { m00: self.m00, m01: self.m01, m10: self.m20, m11: self.m21 } } } else { if col == 0 { Matrix2 { m00: self.m01, m01: self.m02, m10: self.m11, m11: self.m12 } } else if col == 1 { Matrix2 { m00: self.m00, m01: self.m02, m10: self.m10, m11: self.m12 } } else { Matrix2 { m00: self.m00, m01: self.m01, m10: self.m10, m11: self.m11 } } }
    }
}

impl Matrix3 {

    pub fn new(e00: Fx, e01: Fx, e02: Fx, e10: Fx, e11: Fx, e12: Fx, e20: Fx, e21: Fx, e22: Fx) -> (r: Matrix3)
        ensures
            r == (Matrix3 { m00: e00, m01: e01, m02: e02, m10: e10, m11: e11, m12: e12, m20: e20, m21: e21, m22: e22 }),
    {
        Matrix3 { m00: e00, m01: e01, m02: e02, m10: e10, m11: e11, m12: e12, m20: e20, m21: e21, m22: e22 }
    }

    pub fn minor(&self, row: usize, col: usize) -> (r: Fx)
        requires
            row < 3,
            col < 3,
        ensures
            r.rv() == spec_minor3(*self, row as int, col as int),
    {
        self.submatrix(row, col).determinant()
    }

    pub fn cofactor(&self, row: usize, col: usize) -> (r: Fx)
        requires
            row < 3,
            col < 3,
        ensures
            r.rv() == spec_cof3(*self, row as int, col as int),
    {
        let mn = self.minor(row, col);
        if (row + col) % 2 == 0 {
            mn
        } else {
            mn.neg()
        }
    }

    pub fn determinant(&self) -> (r: Fx)
        ensures
            r.rv() == spec_det3(*self),
    {
        self.m00.mul(self.cofactor(0, 0)).add(self.m01.mul(self.cofactor(0, 1))).add(
            self.m02.mul(self.cofactor(0, 2)),
        )
    }
}

impl Submatrix<Matrix3> for Matrix4 {
    open spec fn sub_valid(&self, row: int, col: int) -> bool {
        0 <= row < 4 && 0 <= col < 4
    }

    open spec fn spec_submatrix(&self, row: int, col: int) -> Matrix3 {
        spec_sub4(*self, row, col)
    }

    fn submatrix(&self, row: usize, col: usize) -> (r: Matrix3) {
        if row == 0 { if col == 0 { Matrix3 { m00: self.m11, m01: self.m12, m02: self.m13, m10: self.m21, m11: self.m22, m12: self.m23, m20: self.m31, m21: self.m32, m22: self.m33 } } else if col == 1 { Matrix3 { m00: self.m10, m01: self.m12, m02: self.m13, m10: self.m20, m11: self.m22, m12: self.m23, m20: self.m30, m21: self.m32, m22: self.m33 } } else if col == 2 { Matrix3 { m00: self.m10, m01: self.m11, m02: self.m13, m10: self.m20, m11: self.m21, m12: self.m23, m20: self.m30, m21: self.m31, m22: self.m33 } } else { Matrix3 { m00: self.m10, m01: self.m11, m02: self.m12, m10: self.m20, m11: self.m21, m12: self.m22, m20: self.m30, m21: self.m31, m22: self.m32 } } } else if row == 1 { if col == 0 { Matrix3 { m00: self.m01, m01: self.m02, m02: self.m03, m10: self.m21, m11: self.m22, m12: self.m23, m20: self.m31, m21: self.m32, m22: self.m33 } } else if col == 1 { Matrix3 { m00: self.m00, m01: self.m02, m02: self.m03, m10: self.m20, m11: self.m22, m12: self.m23, m20: self.m30, m21: self.m32, m22: self.m33 } } else if col == 2 { Matrix3 { m00: self.m00, m01: self.m01, m02: self.m03, m10: self.m20, m11: self.m21, m12: self.m23, m20: self.m30, m21: self.m31, m22: self.m33 } } else { Matrix3 { m00: self.m00, m01: self.m01, m02: self.m02, m10: self.m20, m11: self.m21, m12: self.m22, m20: self.m30, m21: self.m31, m22: self.m32 } } } else if row == 2 { if col == 0 { Matrix3 { m00: self.m01, m01: self.m02, m02: self.m03, m10: self.m11, m11: self.m12, m12: self.m13, m20: self.m31, m21: self.m32, m22: self.m33 } } else if col == 1 { Matrix3 { m00: self.m00, m01: self.m02, m02: self.m03, m10: self.m10, m11: self.m12, m12: self.m13, m20: self.m30, m21: self.m32, m22: self.m33 } } else if col == 2 { Matrix3 { m00: self.m00, m01: self.m01, m02: self.m03, m10: self.m10, m11: self.m11, m12: self.m13, m20: self.m30, m21: self.m31, m22: self.m33 } } else { Matrix3 { m00: self.m00, m01: self.m01, m02: self.m02, m10: self.m10, m11: self.m11, m12: self.m12, m20: self.m30, m21: self.m31, m22: self.m32 } } } else { if col == 0 { Matrix3 { m00: self.m01, m01: self.m02, m02: self.m03, m10: self.m11, m11: self.m12, m12: self.m13, m20: self.m21, m21: self.m22, m22: self.m23 } } else if col == 1 { Matrix3 { m00: self.m00, m01: self.m02, m02: self.m03, m10: self.m10, m11: self.m12, m12: self.m13, m20: self.m20, m21: self.m22, m22: self.m23 } } else if col == 2 { Matrix3 { m00: self.m00, m01: self.m01, m02: self.m03, m10: self.m10, m11: self.m11, m12: self.m13, m20: self.m20, m21: self.m21, m22: self.m23 } } else { Matrix3 { m00: self.m00, m01: self.m01, m02: self.m02, m10: self.m10, m11: self.m11, m12: self.m12, m20: self.m20, m21: self.m21, m22: self.m22 } } }
    }
}

impl Matrix4 {
    pub fn new(e00: Fx, e01: Fx, e02: Fx, e03: Fx, e10: Fx, e11: Fx, e12: Fx, e13: Fx, e20: Fx, e21: Fx, e22: Fx, e23: Fx, e30: Fx, e31: Fx, e32: Fx, e33: Fx) -> (r: Matrix4)
        ensures
            r == (Matrix4 { m00: e00, m01: e01, m02: e02, m03: e03, m10: e10, m11: e11, m12: e12, m13: e13, m20: e20, m21: e21, m22: e22, m23: e23, m30: e30, m31: e31, m32: e32, m33: e33 }),
    {
        Matrix4 { m00: e00, m01: e01, m02: e02, m03: e03, m10: e10, m11: e11, m12: e12, m13: e13, m20: e20, m21: e21, m22: e22, m23: e23, m30: e30, m31: e31, m32: e32, m33: e33 }
    }

    pub fn minor(&self, row: usize, col: usize) -> (r: Fx)
        requires
            row < 4,
            col < 4,
        ensures
            r.rv() == spec_minor4(*self, row as int, col as int),
    {
        self.submatrix(row, col).determinant()
    }

    pub fn cofactor(&self, row: usize, col: usize) -> (r: Fx)
        requires
            row < 4,
            col < 4,
        ensures
            r.rv() == spec_cof4(*self, row as int, col as int),
    {
        let mn = self.minor(row, col);
        if (row + col) % 2 == 0 {
            mn
        } else {
            mn.neg()
        }
    }

    pub fn determinant(&self) -> (r: Fx)
        ensures
            r.rv() == spec_det4(*self),
    {
        self.m00.mul(self.cofactor(0, 0)).add(self.m01.mul(self.cofactor(0, 1))).add(
            self.m02.mul(self.cofactor(0, 2)),
        ).add(self.m03.mul(self.cofactor(0, 3)))
    }

    /// Whether the determinant is at least the tolerance away from zero.
    pub fn is_invertible(&self) -> (r: bool)
        ensures
            r == spec_invertible(*self),
    {
        let det = self.determinant();
        det.raw >= EPSILON_RAW || det.raw <= -EPSILON_RAW
    }

    /// The inverse, by dividing each cofactor by the determinant and
    /// transposing the indices; a singular matrix is reported as an error.
    pub fn inverse(&self) -> (r: Result<Matrix4, MatrixError>)
        ensures
            spec_invertible(*self) ==> r == Ok::<Matrix4, MatrixError>(spec_inverse4(*self)),
            !spec_invertible(*self) ==> r == Err::<Matrix4, MatrixError>(MatrixError::NotInvertible),
    {
        if !self.is_invertible() {
            Err(MatrixError::NotInvertible)
        } else {
            let det = self.determinant();
            Ok(Matrix4::new(
            self.cofactor(0, 0).div(det),
            self.cofactor(1, 0).div(det),
            self.cofactor(2, 0).div(det),
            self.cofactor(3, 0).div(det),
            self.cofactor(0, 1).div(det),
            self.cofactor(1, 1).div(det),
            self.cofactor(2, 1).div(det),
            self.cofactor(3, 1).div(det),
            self.cofactor(0, 2).div(det),
            self.cofactor(1, 2).div(det),
            self.cofactor(2, 2).div(det),
            self.cofactor(3, 2).div(det),
            self.cofactor(0, 3).div(det),
            self.cofactor(1, 3).div(det),
            self.cofactor(2, 3).div(det),
            self.cofactor(3, 3).div(det),
            ))
        }
    }

    pub fn mul(&self, rhs: &Matrix4) -> (r: Matrix4)
        ensures
            r == spec_mat_mul(*self, *rhs),
    {
        Matrix4::new(
            self.m00.mul(rhs.m00).add(self.m01.mul(rhs.m10).add(self.m02.mul(rhs.m20).add(self.m03.mul(rhs.m30)))),
            self.m00.mul(rhs.m01).add(self.m01.mul(rhs.m11).add(self.m02.mul(rhs.m21).add(self.m03.mul(rhs.m31)))),
            self.m00.mul(rhs.m02).add(self.m01.mul(rhs.m12).add(self.m02.mul(rhs.m22).add(self.m03.mul(rhs.m32)))),
            self.m00.mul(rhs.m03).add(self.m01.mul(rhs.m13).add(self.m02.mul(rhs.m23).add(self.m03.mul(rhs.m33)))),
            self.m10.mul(rhs.m00).add(self.m11.mul(rhs.m10).add(self.m12.mul(rhs.m20).add(self.m13.mul(rhs.m30)))),
            self.m10.mul(rhs.m01).add(self.m11.mul(rhs.m11).add(self.m12.mul(rhs.m21).add(self.m13.mul(rhs.m31)))),
            self.m10.mul(rhs.m02).add(self.m11.mul(rhs.m12).add(self.m12.mul(rhs.m22).add(self.m13.mul(rhs.m32)))),
            self.m10.mul(rhs.m03).add(self.m11.mul(rhs.m13).add(self.m12.mul(rhs.m23).add(self.m13.mul(rhs.m33)))),
            self.m20.mul(rhs.m00).add(self.m21.mul(rhs.m10).add(self.m22.mul(rhs.m20).add(self.m23.mul(rhs.m30)))),
            self.m20.mul(rhs.m01).add(self.m21.mul(rhs.m11).add(self.m22.mul(rhs.m21).add(self.m23.mul(rhs.m31)))),
            self.m20.mul(rhs.m02).add(self.m21.mul(rhs.m12).add(self.m22.mul(rhs.m22).add(self.m23.mul(rhs.m32)))),
            self.m20.mul(rhs.m03).add(self.m21.mul(rhs.m13).add(self.m22.mul(rhs.m23).add(self.m23.mul(rhs.m33)))),
            self.m30.mul(rhs.m00).add(self.m31.mul(rhs.m10).add(self.m32.mul(rhs.m20).add(self.m33.mul(rhs.m30)))),
            self.m30.mul(rhs.m01).add(self.m31.mul(rhs.m11).add(self.m32.mul(rhs.m21).add(self.m33.mul(rhs.m31)))),
            self.m30.mul(rhs.m02).add(self.m31.mul(rhs.m12).add(self.m32.mul(rhs.m22).add(self.m33.mul(rhs.m32)))),
            self.m30.mul(rhs.m03).add(self.m31.mul(rhs.m13).add(self.m32.mul(rhs.m23).add(self.m33.mul(rhs.m33)))),
        )
    }

    pub fn transpose(&self) -> (r: Matrix4)
        ensures
            r == spec_transpose(*self),
    {
        Matrix4::new(self.m00, self.m10, self.m20, self.m30, self.m01, self.m11, self.m21, self.m31, self.m02, self.m12, self.m22, self.m32, self.m03, self.m13, self.m23, self.m33)
    }

    pub fn identity() -> (r: Matrix4)
        ensures
            r == spec_identity(),
    {
        let o = Fx::one();
        let z = Fx::zero();
        Matrix4::new(o, z, z, z, z, o, z, z, z, z, o, z, z, z, z, o)
    }

    /// The translation by `(x, y, z)`.
    pub fn translation(x: Fx, y: Fx, z: Fx) -> (r: Matrix4)
        ensures
            r == spec_translation(x.rv(), y.rv(), z.rv()),
    {
        let o = Fx::one();
        let zz = Fx::zero();
        Matrix4::new(o, zz, zz, x, zz, o, zz, y, zz, zz, o, z, zz, zz, zz, o)
    }

    /// The scaling by `(x, y, z)`.
    pub fn scaling(x: Fx, y: Fx, z: Fx) -> (r: Matrix4)
        ensures
            r == spec_scaling(x.rv(), y.rv(), z.rv()),
    {
        let o = Fx::one();
        let zz = Fx::zero();
        Matrix4::new(x, zz, zz, zz, zz, y, zz, zz, zz, zz, z, zz, zz, zz, zz, o)
    }

    /// The rotation about the x axis by `radians`.
    pub fn rotation_x(radians: Fx) -> (r: Matrix4)
        ensures
            r == spec_rotation_x(radians.rv()),
    {
        let c = cos_fx(radians);
        let s = sin_fx(radians);
        let o = Fx::one();
        let z = Fx::zero();
        Matrix4::new(o, z, z, z, z, c, s.neg(), z, z, s, c, z, z, z, z, o)
    }

    /// The rotation about the y axis by `radians`.
    pub fn rotation_y(radians: Fx) -> (r: Matrix4)
        ensures
            r == spec_rotation_y(radians.rv()),
    {
        let c = cos_fx(radians);
        let s = sin_fx(radians);
        let o = Fx::one();
        let z = Fx::zero();
        Matrix4::new(c, z, s, z, z, o, z, z, s.neg(), z, c, z, z, z, z, o)
    }

    /// The rotation about the z axis by `radians`.
    pub fn rotation_z(radians: Fx) -> (r: Matrix4)
        ensures
            r == spec_rotation_z(radians.rv()),
    {
        let c = cos_fx(radians);
        let s = sin_fx(radians);
        let o = Fx::one();
        let z = Fx::zero();
        Matrix4::new(c, s.neg(), z, z, s, c, z, z, z, z, o, z, z, z, z, o)
    }

    /// The shear with the six coupling terms.
    pub fn shearing(xy: Fx, xz: Fx, yx: Fx, yz: Fx, zx: Fx, zy: Fx) -> (r: Matrix4)
        ensures
            r == spec_shearing(xy.rv(), xz.rv(), yx.rv(), yz.rv(), zx.rv(), zy.rv()),
    {
        let o = Fx::one();
        let z = Fx::zero();
        Matrix4::new(o, xy, xz, z, yx, o, yz, z, zx, zy, o, z, z, z, z, o)
    }

    /// The world-to-camera transform of an eye at `from` looking at `to`.
    pub fn view_transform(from: Point, to: Point, up: Vector) -> (r: Matrix4)
        ensures
            r == spec_view_transform(from, to, up),
    {
        let forward = to.sub(from).normalized();
        let upn = up.normalized();
        let left = forward.cross(upn);
        let true_up = left.cross(forward);
        let z = Fx::zero();
        let o = Fx::one();
        let orientation = Matrix4::new(
            left.x, left.y, left.z, z,
            true_up.x, true_up.y, true_up.z, z,
            forward.x.neg(), forward.y.neg(), forward.z.neg(), z,
            z, z, z, o,
        );
        orientation.mul(&Matrix4::translation(from.x.neg(), from.y.neg(), from.z.neg()))
    }

    /// Applies the transform to a point (homogeneous weight one).
    pub fn mul_point(&self, p: Point) -> (r: Point)
        ensures
            r == spec_mul_point(*self, p),
    {
        Point {
            x: self.m00.mul(p.x).add(self.m01.mul(p.y).add(self.m02.mul(p.z).add(self.m03))),
            y: self.m10.mul(p.x).add(self.m11.mul(p.y).add(self.m12.mul(p.z).add(self.m13))),
            z: self.m20.mul(p.x).add(self.m21.mul(p.y).add(self.m22.mul(p.z).add(self.m23))),
        }
    }

    /// Applies the transform to a vector (homogeneous weight zero).
    pub fn mul_vec(&self, v: Vector) -> (r: Vector)
        ensures
            r == spec_mul_vec(*self, v),
    {
        Vector {
            x: self.m00.mul(v.x).add(self.m01.mul(v.y).add(self.m02.mul(v.z))),
            y: self.m10.mul(v.x).add(self.m11.mul(v.y).add(self.m12.mul(v.z))),
            z: self.m20.mul(v.x).add(self.m21.mul(v.y).add(self.m22.mul(v.z))),
        }
    }
}

impl ApproxEq for Matrix2 {
    open spec fn approx_spec(&self, rhs: &Self) -> bool {
        spec_approx(self.m00.rv(), rhs.m00.rv())
            && spec_approx(self.m01.rv(), rhs.m01.rv())
            && spec_approx(self.m10.rv(), rhs.m10.rv())
            && spec_approx(self.m11.rv(), rhs.m11.rv())
    }

    fn approx_eq(&self, rhs: &Self) -> (r: bool) {
        self.m00.approx_eq(&rhs.m00)
            && self.m01.approx_eq(&rhs.m01)
            && self.m10.approx_eq(&rhs.m10)
            && self.m11.approx_eq(&rhs.m11)
    }
}

impl ApproxEq for Matrix3 {
    open spec fn approx_spec(&self, rhs: &Self) -> bool {
        spec_approx(self.m00.rv(), rhs.m00.rv())
            && spec_approx(self.m01.rv(), rhs.m01.rv())
            && spec_approx(self.m02.rv(), rhs.m02.rv())
            && spec_approx(self.m10.rv(), rhs.m10.rv())
            && spec_approx(self.m11.rv(), rhs.m11.rv())
            && spec_approx(self.m12.rv(), rhs.m12.rv())
            && spec_approx(self.m20.rv(), rhs.m20.rv())
            && spec_approx(self.m21.rv(), rhs.m21.rv())
            && spec_approx(self.m22.rv(), rhs.m22.rv())
    }

    fn approx_eq(&self, rhs: &Self) -> (r: bool) {
        self.m00.approx_eq(&rhs.m00)
            && self.m01.approx_eq(&rhs.m01)
            && self.m02.approx_eq(&rhs.m02)
            && self.m10.approx_eq(&rhs.m10)
            && self.m11.approx_eq(&rhs.m11)
            && self.m12.approx_eq(&rhs.m12)
            && self.m20.approx_eq(&rhs.m20)
            && self.m21.approx_eq(&rhs.m21)
            && self.m22.approx_eq(&rhs.m22)
    }
}

impl ApproxEq for Matrix4 {
    open spec fn approx_spec(&self, rhs: &Self) -> bool {
        spec_approx(self.m00.rv(), rhs.m00.rv())
            && spec_approx(self.m01.rv(), rhs.m01.rv())
            && spec_approx(self.m02.rv(), rhs.m02.rv())
            && spec_approx(self.m03.rv(), rhs.m03.rv())
            && spec_approx(self.m10.rv(), rhs.m10.rv())
            && spec_approx(self.m11.rv(), rhs.m11.rv())
            && spec_approx(self.m12.rv(), rhs.m12.rv())
            && spec_approx(self.m13.rv(), rhs.m13.rv())
            && spec_approx(self.m20.rv(), rhs.m20.rv())
            && spec_approx(self.m21.rv(), rhs.m21.rv())
            && spec_approx(self.m22.rv(), rhs.m22.rv())
            && spec_approx(self.m23.rv(), rhs.m23.rv())
            && spec_approx(self.m30.rv(), rhs.m30.rv())
            && spec_approx(self.m31.rv(), rhs.m31.rv())
            && spec_approx(self.m32.rv(), rhs.m32.rv())
            && spec_approx(self.m33.rv(), rhs.m33.rv())
    }

    fn approx_eq(&self, rhs: &Self) -> (r: bool) {
        self.m00.approx_eq(&rhs.m00)
            && self.m01.approx_eq(&rhs.m01)
            && self.m02.approx_eq(&rhs.m02)
            && self.m03.approx_eq(&rhs.m03)
            && self.m10.approx_eq(&rhs.m10)
            && self.m11.approx_eq(&rhs.m11)
            && self.m12.approx_eq(&rhs.m12)
            && self.m13.approx_eq(&rhs.m13)
            && self.m20.approx_eq(&rhs.m20)
            && self.m21.approx_eq(&rhs.m21)
            && self.m22.approx_eq(&rhs.m22)
            && self.m23.approx_eq(&rhs.m23)
            && self.m30.approx_eq(&rhs.m30)
            && self.m31.approx_eq(&rhs.m31)
            && self.m32.approx_eq(&rhs.m32)
            && self.m33.approx_eq(&rhs.m33)
    }
}

/// The identity transform is invertible and is its own inverse, already
/// at fixed-point precision.
pub proof fn lemma_identity_inverse()
    ensures
        spec_invertible(spec_identity()),
        spec_inverse4(spec_identity()) == spec_identity(),
{
}

/// Every entry computation of a translation's inverse needs only that
/// products with zero vanish and products with one are identities.
proof fn lemma_translation_entry_facts(x: int, y: int, z: int)
    requires
        abs_int(x) <= RAW_LIMIT as int,
        abs_int(y) <= RAW_LIMIT as int,
        abs_int(z) <= RAW_LIMIT as int,
    ensures
        spec_mul(x, SCALE as int) == x,
        spec_mul(SCALE as int, x) == x,
        spec_mul(y, SCALE as int) == y,
        spec_mul(SCALE as int, y) == y,
        spec_mul(z, SCALE as int) == z,
        spec_mul(SCALE as int, z) == z,
        spec_mul(x, 0) == 0,
        spec_mul(0, x) == 0,
        spec_mul(y, 0) == 0,
        spec_mul(0, y) == 0,
        spec_mul(z, 0) == 0,
        spec_mul(0, z) == 0,
        spec_mul(spec_neg(x), SCALE as int) == spec_neg(x),
        spec_mul(SCALE as int, spec_neg(x)) == spec_neg(x),
        spec_mul(spec_neg(y), SCALE as int) == spec_neg(y),
        spec_mul(SCALE as int, spec_neg(y)) == spec_neg(y),
        spec_mul(spec_neg(z), SCALE as int) == spec_neg(z),
        spec_mul(SCALE as int, spec_neg(z)) == spec_neg(z),
        spec_mul(spec_neg(x), 0) == 0,
        spec_mul(0, spec_neg(x)) == 0,
        spec_mul(spec_neg(y), 0) == 0,
        spec_mul(0, spec_neg(y)) == 0,
        spec_mul(spec_neg(z), 0) == 0,
        spec_mul(0, spec_neg(z)) == 0,
        spec_div(x, SCALE as int) == x,
        spec_div(y, SCALE as int) == y,
        spec_div(z, SCALE as int) == z,
        spec_div(spec_neg(x), SCALE as int) == spec_neg(x),
        spec_div(spec_neg(y), SCALE as int) == spec_neg(y),
        spec_div(spec_neg(z), SCALE as int) == spec_neg(z),
        spec_div(0, SCALE as int) == 0,
        spec_div(SCALE as int, SCALE as int) == SCALE as int,
{
    crate::fx::lemma_mul_one(x);
    crate::fx::lemma_mul_one(y);
    crate::fx::lemma_mul_one(z);
    crate::fx::lemma_mul_one(spec_neg(x));
    crate::fx::lemma_mul_one(spec_neg(y));
    crate::fx::lemma_mul_one(spec_neg(z));
    crate::fx::lemma_mul_zero(x);
    crate::fx::lemma_mul_zero(y);
    crate::fx::lemma_mul_zero(z);
    crate::fx::lemma_mul_zero(spec_neg(x));
    crate::fx::lemma_mul_zero(spec_neg(y));
    crate::fx::lemma_mul_zero(spec_neg(z));
    crate::fx::lemma_div_one(x);
    crate::fx::lemma_div_one(y);
    crate::fx::lemma_div_one(z);
    crate::fx::lemma_div_one(spec_neg(x));
    crate::fx::lemma_div_one(spec_neg(y));
    crate::fx::lemma_div_one(spec_neg(z));
    crate::fx::lemma_div_one(0);
    crate::fx::lemma_div_one(SCALE as int);
}

/// A translation is invertible, and the general cofactor inverse of a
/// translation is exactly the opposite translation: no precision is
/// lost anywhere in the computation.
#[verifier::rlimit(100)]
pub proof fn lemma_translation_inverse(x: Fx, y: Fx, z: Fx)
    requires
        abs_int(x.rv()) <= RAW_LIMIT as int,
        abs_int(y.rv()) <= RAW_LIMIT as int,
        abs_int(z.rv()) <= RAW_LIMIT as int,
    ensures
        spec_invertible(spec_translation(x.rv(), y.rv(), z.rv())),
        spec_inverse4(spec_translation(x.rv(), y.rv(), z.rv())) == spec_translation(
            spec_neg(x.rv()),
            spec_neg(y.rv()),
            spec_neg(z.rv()),
        ),
{
    lemma_translation_entry_facts(x.rv(), y.rv(), z.rv());
    let t = spec_translation(x.rv(), y.rv(), z.rv());
    assert(spec_det4(t) == SCALE as int);
    assert(spec_inverse4(t) =~= spec_translation(
        spec_neg(x.rv()),
        spec_neg(y.rv()),
        spec_neg(z.rv()),
    ));
}

/// A translation composed with its inverse is the identity, exactly:
/// the round trip loses nothing at this precision.
#[verifier::rlimit(100)]
pub proof fn lemma_translation_roundtrip(x: Fx, y: Fx, z: Fx)
    requires
        abs_int(x.rv()) <= RAW_LIMIT as int,
        abs_int(y.rv()) <= RAW_LIMIT as int,
        abs_int(z.rv()) <= RAW_LIMIT as int,
    ensures
        spec_mat_mul(
            spec_translation(x.rv(), y.rv(), z.rv()),
            spec_inverse4(spec_translation(x.rv(), y.rv(), z.rv())),
        ) == spec_identity(),
{
    lemma_translation_inverse(x, y, z);
    lemma_translation_entry_facts(x.rv(), y.rv(), z.rv());
    let t = spec_translation(x.rv(), y.rv(), z.rv());
    assert(spec_mat_mul(t, spec_inverse4(t)) =~= spec_identity());
}

/// Transforming a point by a translation's inverse and then by the
/// translation gives the point back, exactly, as long as the offsets
/// stay clear of the representable edge.
#[verifier::rlimit(100)]
pub proof fn lemma_translation_point_roundtrip(x: Fx, y: Fx, z: Fx, p: Point)
    requires
        abs_int(x.rv()) + abs_int(p.x.rv()) <= RAW_LIMIT as int,
        abs_int(y.rv()) + abs_int(p.y.rv()) <= RAW_LIMIT as int,
        abs_int(z.rv()) + abs_int(p.z.rv()) <= RAW_LIMIT as int,
    ensures
        spec_mul_point(
            spec_translation(x.rv(), y.rv(), z.rv()),
            spec_mul_point(spec_inverse4(spec_translation(x.rv(), y.rv(), z.rv())), p),
        ) == p,
{
    lemma_translation_inverse(x, y, z);
    lemma_translation_entry_facts(x.rv(), y.rv(), z.rv());
    crate::fx::lemma_mul_one(p.x.rv());
    crate::fx::lemma_mul_one(p.y.rv());
    crate::fx::lemma_mul_one(p.z.rv());
    crate::fx::lemma_mul_zero(p.x.rv());
    crate::fx::lemma_mul_zero(p.y.rv());
    crate::fx::lemma_mul_zero(p.z.rv());
    let t = spec_translation(x.rv(), y.rv(), z.rv());
    let q = spec_mul_point(spec_inverse4(t), p);
    assert(q.x.rv() == spec_add(p.x.rv(), spec_neg(x.rv())));
    assert(q.y.rv() == spec_add(p.y.rv(), spec_neg(y.rv())));
    assert(q.z.rv() == spec_add(p.z.rv(), spec_neg(z.rv())));
    crate::fx::lemma_mul_one(q.x.rv());
    crate::fx::lemma_mul_one(q.y.rv());
    crate::fx::lemma_mul_one(q.z.rv());
    crate::fx::lemma_mul_zero(q.x.rv());
    crate::fx::lemma_mul_zero(q.y.rv());
    crate::fx::lemma_mul_zero(q.z.rv());
    assert(spec_mul_point(t, q) =~= p);
}

} // verus!
