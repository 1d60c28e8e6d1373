//! Twelve points of a clock face, by rotating one point about `z`.

use vstd::prelude::*;

use crate::canvas::Canvas;
use crate::color::{Color, spec_black, spec_white};
use crate::fx::{Fx, SCALE, clamp_raw, tdiv, spec_mul, spec_div};
use crate::matrix::{Matrix4, spec_rotation_z, spec_mul_point};
use crate::trig::PI_RAW;
use crate::tuple::{Point, spec_point};

verus! {

/// The angle of hour mark `i`: one twelfth of a turn per hour.
pub open spec fn spec_clock_angle(i: int) -> int {
    spec_div(spec_mul(clamp_raw(i * SCALE), PI_RAW as int), clamp_raw(6 * SCALE))
}

/// The world position of hour mark `i`: the three-o'clock point rotated
/// about `z`.
pub open spec fn spec_clock_point(i: int) -> Point {
    spec_mul_point(
        spec_rotation_z(spec_clock_angle(i)),
        spec_point(clamp_raw(196 * SCALE), 0, 0),
    )
}

/// The canvas column of mark `i`: offset from the canvas center.
pub open spec fn spec_clock_column(i: int) -> int {
    256 + tdiv(spec_clock_point(i).x.rv(), SCALE as int)
}

/// The canvas row of mark `i`: offset from the center, vertically
/// flipped so that larger `y` is higher on the image.
pub open spec fn spec_clock_row(i: int) -> int {
    512 - (256 + tdiv(spec_clock_point(i).y.rv(), SCALE as int))
}

/// Whether mark `i` lands on the canvas at all.
pub open spec fn spec_clock_mark_visible(i: int) -> bool {
    &&& 0 <= spec_clock_column(i) < 512
    &&& 0 < 256 + tdiv(spec_clock_point(i).y.rv(), SCALE as int) <= 512
}

/// Whether pixel `(col, row)` carries one of the first `n` hour marks.
pub open spec fn spec_is_clock_mark(col: int, row: int, n: int) -> bool {
    exists|k: int|
        0 <= k < n && spec_clock_mark_visible(k) && spec_clock_column(k) == col
            && spec_clock_row(k) == row
}

/// Draws the twelve hour marks of a clock onto a square canvas: a pixel
/// is white exactly when one of the marks lands on it, and marks that
/// would fall outside the canvas are skipped.
#[verifier::rlimit(100)]
pub fn draw_clock() -> (r: Canvas)
    ensures
        r.wf(),
        r.spec_width() == 512,
        r.spec_height() == 512,
        forall|col: int, row: int|
            0 <= col < 512 && 0 <= row < 512 ==> #[trigger] r.spec_pixel(col, row) == (
            if spec_is_clock_mark(col, row, 12) {
                spec_white()
            } else {
                spec_black()
            }),
{
    let mut canvas = Canvas::new(512, 512);
    let point = Point {
        x: Fx::from_int(196),
        y: Fx { raw: 0 },
        z: Fx { raw: 0 },
    };
    let white = Color::white();
    let mut i: u8 = 0;
    while i < 12
        invariant
            i <= 12,
            canvas.wf(),
            canvas.spec_width() == 512,
            canvas.spec_height() == 512,
            point == spec_point(clamp_raw(196 * SCALE), 0, 0),
            white == spec_white(),
            forall|col: int, row: int|
                0 <= col < 512 && 0 <= row < 512 ==> #[trigger] canvas.spec_pixel(col, row) == (
                if spec_is_clock_mark(col, row, i as int) {
                    spec_white()
                } else {
                    spec_black()
                }),
        decreases 12 - i,
    {
        let ghost before = canvas;
        let angle = Fx::from_int(i as i64).mul(Fx { raw: PI_RAW }).div(Fx::from_int(6));
        let rotation = Matrix4::rotation_z(angle);
        let rotated = rotation.mul_point(point);
        let xi: i64 = 256 + rotated.x.trunc_units();
        let yi: i64 = 256 + rotated.y.trunc_units();
        proof {
            assert(rotated == spec_clock_point(i as int));
            assert(xi as int == spec_clock_column(i as int));
            assert(512 - yi as int == spec_clock_row(i as int));
        }
        if 0 <= xi && xi < 512 && 0 < yi && yi <= 512 {
            canvas.write_pixel(xi as usize, (512 - yi) as usize, white);
        }
        proof {
            let n = i as int;
            assert forall|col: int, row: int|
                0 <= col < 512 && 0 <= row < 512 implies #[trigger] canvas.spec_pixel(col, row)
                == (if spec_is_clock_mark(col, row, n + 1) {
                spec_white()
            } else {
                spec_black()
            }) by {
                if spec_clock_mark_visible(n) && spec_clock_column(n) == col && spec_clock_row(n)
                    == row {
                    assert(spec_is_clock_mark(col, row, n + 1));
                    assert(canvas.spec_pixel(col, row) == spec_white());
                } else {
                    assert(canvas.spec_pixel(col, row) == before.spec_pixel(col, row));
                    assert(spec_is_clock_mark(col, row, n + 1) == spec_is_clock_mark(col, row, n))
                        by {
                        if spec_is_clock_mark(col, row, n) {
                            let k = choose|k: int|
                                0 <= k < n && spec_clock_mark_visible(k) && spec_clock_column(k)
                                    == col && spec_clock_row(k) == row;
                            assert(0 <= k < n + 1 && spec_clock_mark_visible(k)
                                && spec_clock_column(k) == col && spec_clock_row(k) == row);
                        }
                        if spec_is_clock_mark(col, row, n + 1) {
                            let k = choose|k: int|
                                0 <= k < n + 1 && spec_clock_mark_visible(k) && spec_clock_column(
                                    k,
                                ) == col && spec_clock_row(k) == row;
                            assert(k < n);
                            assert(spec_is_clock_mark(col, row, n));
                        }
                    }
                }
            }
        }
        i = i + 1;
    }
    canvas
}

} // verus!
