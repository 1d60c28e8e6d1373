//! A projectile under gravity and wind, plotted onto a canvas.

use vstd::prelude::*;

use crate::canvas::Canvas;
use crate::color::{Color, spec_black, spec_color};
use crate::fx::{Fx, RAW_LIMIT, SCALE, tdiv};
use crate::tuple::{Point, Vector, spec_normalized, spec_padd, spec_point, spec_vadd, spec_vec, spec_vscale};

verus! {

#[derive(Clone, Copy, Debug)]
pub struct Projectile {
    pub position: Point,
    pub velocity: Vector,
}

#[derive(Clone, Copy, Debug)]
pub struct Environment {
    pub gravity: Vector,
    pub wind: Vector,
}

impl Projectile {
    pub fn new(position: Point, velocity: Vector) -> (r: Projectile)
        ensures
            r == (Projectile { position, velocity }),
    {
        Projectile { position, velocity }
    }

    /// One time step: the position moves by the velocity, and the
    /// velocity picks up gravity and wind.
    pub fn tick(&mut self, environment: &Environment)
        ensures
            final(self).position == spec_padd(old(self).position, old(self).velocity),
            final(self).velocity == spec_vadd(
                spec_vadd(old(self).velocity, environment.gravity),
                environment.wind,
            ),
    {
        self.position = self.position.add(self.velocity);
        self.velocity = self.velocity.add(environment.gravity).add(environment.wind);
    }
}

impl Environment {
    pub fn new(gravity: Vector, wind: Vector) -> (r: Environment)
        ensures
            r == (Environment { gravity, wind }),
    {
        Environment { gravity, wind }
    }
}

/// The launch state: one unit up, thrown up-and-right at speed 11.25.
pub open spec fn spec_launch_start() -> Projectile {
    Projectile {
        position: spec_point(0, SCALE as int, 0),
        velocity: spec_vscale(
            spec_normalized(spec_vec(SCALE as int, 18_000_000, 0)),
            112_500_000,
        ),
    }
}

/// The launch environment: gravity straight down, wind against the
/// flight.
pub open spec fn spec_launch_environment() -> Environment {
    Environment {
        gravity: spec_vec(0, -1_000_000, 0),
        wind: spec_vec(-100_000, 0, 0),
    }
}

/// The projectile after `k` time steps of the launch.
pub open spec fn spec_launch_state(k: nat) -> Projectile
    decreases k,
{
    if k == 0 {
        spec_launch_start()
    } else {
        let p = spec_launch_state((k - 1) as nat);
        let env = spec_launch_environment();
        Projectile {
            position: spec_padd(p.position, p.velocity),
            velocity: spec_vadd(spec_vadd(p.velocity, env.gravity), env.wind),
        }
    }
}

/// Whether the projectile is still above the ground at every step up to
/// and including `k`: only such steps are simulated and plotted.
pub open spec fn spec_launch_alive(k: int) -> bool {
    forall|m: int|
        0 <= m <= k ==> (#[trigger] spec_launch_state(m as nat)).position.y.rv() > 0
}

/// The canvas column of step `k`.
pub open spec fn spec_launch_column(k: int) -> int {
    tdiv(spec_launch_state(k as nat).position.x.rv(), SCALE as int)
}

/// The whole units of height of step `k`; the row is this, flipped.
pub open spec fn spec_launch_height(k: int) -> int {
    tdiv(spec_launch_state(k as nat).position.y.rv(), SCALE as int)
}

/// Whether step `k` lands on the canvas.
pub open spec fn spec_launch_visible(k: int) -> bool {
    &&& 0 <= spec_launch_column(k) < 900
    &&& 0 <= spec_launch_height(k) < 550
    &&& 550 - spec_launch_height(k) < 550
}

/// Whether pixel `(col, row)` carries one of the first `n` plotted
/// steps.
pub open spec fn spec_is_launch_plot(col: int, row: int, n: int) -> bool {
    exists|k: int|
        0 <= k < n && spec_launch_alive(k) && spec_launch_visible(k) && spec_launch_column(k)
            == col && 550 - spec_launch_height(k) == row
}

/// The loop measure: the vertical velocity dominates, the height above
/// ground breaks ties.
pub open spec fn descent_measure(vy: int, py: int) -> int {
    (vy + RAW_LIMIT) * (2 * (RAW_LIMIT as int) + 2) + (if py > 0 {
        py
    } else {
        0
    })
}

/// Launches the projectile and plots each step while it is above the
/// ground: a pixel is red exactly when some simulated step lands on it,
/// and steps that fall outside the canvas are skipped.  The loop ends
/// because gravity pushes the vertical velocity ever lower until the
/// position must sink to the ground.
#[verifier::rlimit(100)]
pub fn launch_projecticle() -> (r: Canvas)
    ensures
        r.wf(),
        r.spec_width() == 900,
        r.spec_height() == 550,
        forall|col: int, row: int|
            0 <= col < 900 && 0 <= row < 550 ==> #[trigger] r.spec_pixel(col, row) == (
            if exists|k: int|
                0 <= k && spec_launch_alive(k) && spec_launch_visible(k) && spec_launch_column(k)
                    == col && 550 - spec_launch_height(k) == row {
                spec_color(SCALE as int, 0, 0)
            } else {
                spec_black()
            }),
{
    let start = Point { x: Fx { raw: 0 }, y: Fx { raw: SCALE }, z: Fx { raw: 0 } };
    let velocity = Vector {
        x: Fx { raw: SCALE },
        y: Fx { raw: 18_000_000 },
        z: Fx { raw: 0 },
    }.normalized().scale(Fx { raw: 112_500_000 });
    let mut projectile = Projectile::new(start, velocity);

    let gravity = Vector { x: Fx { raw: 0 }, y: Fx { raw: -1_000_000 }, z: Fx { raw: 0 } };
    let wind = Vector { x: Fx { raw: -100_000 }, y: Fx { raw: 0 }, z: Fx { raw: 0 } };
    let environment = Environment::new(gravity, wind);

    let mut canvas = Canvas::new(900, 550);
    let projectile_color = Color {
        red: Fx { raw: SCALE },
        green: Fx { raw: 0 },
        blue: Fx { raw: 0 },
    };
    let ghost mut steps: int = 0;

    while projectile.position.y.raw > 0
        invariant
            canvas.wf(),
            canvas.spec_width() == 900,
            canvas.spec_height() == 550,
            -(RAW_LIMIT as int) <= projectile.velocity.y.rv(),
            projectile.velocity.y.rv() <= RAW_LIMIT as int,
            projectile.position.y.rv() <= RAW_LIMIT as int,
            environment == spec_launch_environment(),
            projectile_color == spec_color(SCALE as int, 0, 0),
            steps >= 0,
            projectile == spec_launch_state(steps as nat),
            forall|m: int|
                0 <= m < steps ==> (#[trigger] spec_launch_state(m as nat)).position.y.rv() > 0,
            forall|col: int, row: int|
                0 <= col < 900 && 0 <= row < 550 ==> #[trigger] canvas.spec_pixel(col, row) == (
                if spec_is_launch_plot(col, row, steps) {
                    spec_color(SCALE as int, 0, 0)
                } else {
                    spec_black()
                }),
        decreases descent_measure(projectile.velocity.y.rv(), projectile.position.y.rv()),
    {
        let ghost before = canvas;
        let ghost vy_in = projectile.velocity.y.rv();
        let ghost py_in = projectile.position.y.rv();
        proof {
            assert(spec_launch_alive(steps)) by {
                assert(spec_launch_state(steps as nat).position.y.rv() > 0);
            }
        }
        let xi: i64 = projectile.position.x.trunc_units();
        let yi: i64 = projectile.position.y.trunc_units();
        proof {
            crate::fx::lemma_tdiv_bound(projectile.position.y.rv(), SCALE as int);
        }
        if 0 <= xi && xi < 900 && 0 <= yi && yi < 550 {
            let py: usize = 550 - (yi as usize);
            if py < 550 {
                canvas.write_pixel(xi as usize, py, projectile_color);
            }
        }
        proof {
            let n = steps;
            assert forall|col: int, row: int|
                0 <= col < 900 && 0 <= row < 550 implies #[trigger] canvas.spec_pixel(col, row)
                == (if spec_is_launch_plot(col, row, n + 1) {
                spec_color(SCALE as int, 0, 0)
            } else {
                spec_black()
            }) by {
                if spec_launch_visible(n) && spec_launch_column(n) == col && 550
                    - spec_launch_height(n) == row {
                    assert(spec_is_launch_plot(col, row, n + 1));
                    assert(canvas.spec_pixel(col, row) == spec_color(SCALE as int, 0, 0));
                } else {
                    assert(canvas.spec_pixel(col, row) == before.spec_pixel(col, row));
                    assert(spec_is_launch_plot(col, row, n + 1) == spec_is_launch_plot(
                        col,
                        row,
                        n,
                    )) by {
                        if spec_is_launch_plot(col, row, n) {
                            let k = choose|k: int|
                                0 <= k < n && spec_launch_alive(k) && spec_launch_visible(k)
                                    && spec_launch_column(k) == col && 550 - spec_launch_height(k)
                                    == row;
                            assert(0 <= k < n + 1 && spec_launch_alive(k) && spec_launch_visible(
                                k,
                            ) && spec_launch_column(k) == col && 550 - spec_launch_height(k)
                                == row);
                        }
                        if spec_is_launch_plot(col, row, n + 1) {
                            let k = choose|k: int|
                                0 <= k < n + 1 && spec_launch_alive(k) && spec_launch_visible(k)
                                    && spec_launch_column(k) == col && 550 - spec_launch_height(k)
                                    == row;
                            assert(k < n);
                            assert(spec_is_launch_plot(col, row, n));
                        }
                    }
                }
            }
        }
        projectile.tick(&environment);
        proof {
            steps = steps + 1;
            let vy_out = projectile.velocity.y.rv();
            let py_out = projectile.position.y.rv();
            if vy_in > -(RAW_LIMIT as int) {
                assert(vy_out < vy_in);
            } else {
                assert(vy_out == vy_in);
                assert(py_out < py_in);
            }
            assert(py_out <= RAW_LIMIT as int);
            assert(descent_measure(vy_out, py_out) < descent_measure(vy_in, py_in))
                by (nonlinear_arith)
                requires
                    vy_out <= vy_in,
                    -(RAW_LIMIT as int) <= vy_out,
                    vy_in <= RAW_LIMIT as int,
                    py_out <= RAW_LIMIT as int,
                    0 < py_in <= RAW_LIMIT as int,
                    vy_out < vy_in || py_out < py_in,
            ;
        }
    }
    proof {
        assert forall|col: int, row: int|
            0 <= col < 900 && 0 <= row < 550 implies #[trigger] canvas.spec_pixel(col, row) == (
        if exists|k: int|
            0 <= k && spec_launch_alive(k) && spec_launch_visible(k) && spec_launch_column(k)
                == col && 550 - spec_launch_height(k) == row {
            spec_color(SCALE as int, 0, 0)
        } else {
            spec_black()
        }) by {
            if exists|k: int|
                0 <= k && spec_launch_alive(k) && spec_launch_visible(k) && spec_launch_column(k)
                    == col && 550 - spec_launch_height(k) == row {
                let k = choose|k: int|
                    0 <= k && spec_launch_alive(k) && spec_launch_visible(k) && spec_launch_column(
                        k,
                    ) == col && 550 - spec_launch_height(k) == row;
                assert(k < steps) by {
                    if k >= steps {
                        assert(spec_launch_state(steps as nat).position.y.rv() > 0);
                    }
                }
                assert(spec_is_launch_plot(col, row, steps));
            } else {
                if spec_is_launch_plot(col, row, steps) {
                    let k = choose|k: int|
                        0 <= k < steps && spec_launch_alive(k) && spec_launch_visible(k)
                            && spec_launch_column(k) == col && 550 - spec_launch_height(k) == row;
                    assert(0 <= k && spec_launch_alive(k) && spec_launch_visible(k)
                        && spec_launch_column(k) == col && 550 - spec_launch_height(k) == row);
                }
            }
        }
    }
    canvas
}

} // verus!
