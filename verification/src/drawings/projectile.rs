//! The projectile plot, drawn from the scene module of the same name.

use vstd::prelude::*;

use crate::canvas::Canvas;
use crate::color::{spec_black, spec_color};
use crate::fx::SCALE;
use crate::projectile::{
    spec_launch_alive, spec_launch_column, spec_launch_height, spec_launch_visible,
};

verus! {

/// Launches the projectile and plots its flight: a pixel is red exactly
/// when some simulated step lands on it.
pub fn launch_projecticle() -> (r: Canvas)
    ensures
        r.wf(),
        r.spec_width() == 900,
        r.spec_height() == 550,
        forall|col: int, row: int|
            0 <= col < 900 && 0 <= row < 550 ==> #[trigger] r.spec_pixel(col, row) == (
            if exists|k: int|
                0 <= k && spec_launch_alive(k) && spec_launch_visible(k) && spec_launch_column(k)
                    == col && 550 - spec_launch_height(k) == row {
                spec_color(SCALE as int, 0, 0)
            } else {
                spec_black()
            }),
{
    crate::projectile::launch_projecticle()
}

} // verus!
