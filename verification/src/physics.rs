//! The per-frame physics step for a single point mass.
//!
//! Each call advances the state by one fixed-size step: a pseudo-gravity
//! pull toward the pointer (or toward the resting position while resetting),
//! friction damping, velocity saturation, a position update, boundary
//! restitution, and — while resetting — a convergence check that snaps the
//! point onto its resting position.
//!
//! All quantities are fixed-point: an `i64` counts thousandths of a unit.
//! The spec functions below state every stage exactly over `int`.

use vstd::prelude::*;

use crate::num::div_t;
use crate::num::div_trunc;
use crate::num::lemma_div_t_bound;
use crate::num::lemma_div_t_mag;
use crate::num::mag;

verus! {

/// One unit, in fixed-point ticks.
pub const SCALE: i64 = 1000;

/// Velocity saturation bound: one hundred units per step.
pub const MAX_VELOCITY: i64 = 100_000;

/// Largest viewport dimension accepted, in ticks (ten thousand units).
pub const DIM_LIMIT: i64 = 10_000_000;

/// Largest pointer coordinate magnitude accepted, in ticks.
pub const MOUSE_LIMIT: i64 = 1_000_000;

/// Largest input velocity magnitude accepted, in ticks.
pub const VEL_LIMIT: i64 = 1_000_000_000;

/// Bound on any computed gravity value, in ticks.
pub const GRAV_LIMIT: i64 = 983_000_000_000;

/// Convergence threshold on the distance to the resting position: one unit.
pub const SNAP_POS_EPS: i64 = 1000;

/// Convergence threshold on the velocity magnitude: a tenth of a unit.
pub const SNAP_VEL_EPS: i64 = 100;

/// The mathematical model of one point's state: the thirteen state fields,
/// with coordinates as unbounded integers (in ticks).
pub ghost struct PointState {
    pub x: int,
    pub y: int,
    pub reset_from_x: int,
    pub reset_from_y: int,
    pub initial_x: int,
    pub initial_y: int,
    pub x_velocity: int,
    pub y_velocity: int,
    pub x_gravity: int,
    pub y_gravity: int,
    pub friction: int,
    pub restitution: int,
    pub is_resetting: bool,
}

/// The mathematical model of one frame's external input: pointer position,
/// button state, and viewport dimensions.
pub ghost struct PointerInput {
    pub mouse_x: int,
    pub mouse_y: int,
    pub mouse_down: bool,
    pub width: int,
    pub height: int,
}

/// The complete mutable state of one simulated point, as the caller holds it
/// between frames. Coordinates, velocities, gravity, friction and restitution
/// are fixed-point ticks: a field value of 1500 means one and a half units.
#[derive(Clone, Copy, Debug, PartialEq, Eq, Structural)]
pub struct Square {
    pub x: i64,
    pub y: i64,
    pub reset_from_x: i64,
    pub reset_from_y: i64,
    pub initial_x: i64,
    pub initial_y: i64,
    pub x_velocity: i64,
    pub y_velocity: i64,
    pub x_gravity: i64,
    pub y_gravity: i64,
    pub friction: i64,
    pub restitution: i64,
    pub is_resetting: bool,
}

impl View for Square {
    type V = PointState;

    open spec fn view(&self) -> PointState {
        PointState {
            x: self.x as int,
            y: self.y as int,
            reset_from_x: self.reset_from_x as int,
            reset_from_y: self.reset_from_y as int,
            initial_x: self.initial_x as int,
            initial_y: self.initial_y as int,
            x_velocity: self.x_velocity as int,
            y_velocity: self.y_velocity as int,
            x_gravity: self.x_gravity as int,
            y_gravity: self.y_gravity as int,
            friction: self.friction as int,
            restitution: self.restitution as int,
            is_resetting: self.is_resetting,
        }
    }
}

/// The pointer input is well formed: positive dimensions within machine
/// limits, pointer coordinates within machine limits.
pub open spec fn valid_pointer(p: PointerInput) -> bool {
    &&& 1 <= p.width <= DIM_LIMIT
    &&& 1 <= p.height <= DIM_LIMIT
    &&& -MOUSE_LIMIT <= p.mouse_x <= MOUSE_LIMIT
    &&& -MOUSE_LIMIT <= p.mouse_y <= MOUSE_LIMIT
}

/// The state is well formed for a viewport of the given dimensions:
/// positions inside the viewport, velocities within machine limits, damping
/// factors within one, and a non-degenerate reset trajectory while resetting
/// (a zero-length trajectory would divide by zero).
pub open spec fn valid_state(s: PointState, width: int, height: int) -> bool {
    &&& 0 <= s.x <= width
    &&& 0 <= s.y <= height
    &&& 0 <= s.initial_x <= width
    &&& 0 <= s.initial_y <= height
    &&& 0 <= s.reset_from_x <= width
    &&& 0 <= s.reset_from_y <= height
    &&& -VEL_LIMIT <= s.x_velocity <= VEL_LIMIT
    &&& -VEL_LIMIT <= s.y_velocity <= VEL_LIMIT
    &&& 0 <= s.friction <= SCALE
    &&& 0 <= s.restitution <= SCALE
    &&& s.is_resetting ==> s.reset_from_x != s.initial_x && s.reset_from_y != s.initial_y
}

/// State and input together form a valid frame.
pub open spec fn valid_input(s: PointState, p: PointerInput) -> bool {
    valid_pointer(p) && valid_state(s, p.width, p.height)
}

/// Boundary margin of a dimension: five percent of it, halved.
pub open spec fn pad_of(dim: int) -> int {
    div_t(dim, 40)
}

/// The point's offset from the viewport center, scaled by three over the
/// dimension: `(pos - dim/2) / dim * 3` in fixed point.
pub open spec fn center_offset(pos: int, dim: int) -> int {
    div_t(1500 * (2 * pos - dim), dim)
}

/// Pseudo-gravity while resetting: `9.81 * (target - pos) / dim`.
pub open spec fn gravity_resetting(pos: int, target: int, dim: int) -> int {
    div_t(9810 * (target - pos), dim)
}

/// Pseudo-gravity in free mode: zero with the pointer up; with it down,
/// `9.81 * aspect * 0.01 * (mouse - offset)`, where the aspect ratio
/// `dim / other` applies only on the longer axis.
pub open spec fn gravity_free(pos: int, mouse: int, dim: int, other: int, down: bool) -> int {
    if !down {
        0
    } else {
        let pull: int = mouse - center_offset(pos, dim);
        if dim > other {
            div_t(981 * dim * pull, 10000 * other)
        } else {
            div_t(981 * pull, 10000)
        }
    }
}

/// Pseudo-gravity of one axis for a whole frame.
pub open spec fn gravity_spec(
    resetting: bool,
    pos: int,
    target: int,
    mouse: int,
    dim: int,
    other: int,
    down: bool,
) -> int {
    if resetting {
        gravity_resetting(pos, target, dim)
    } else {
        gravity_free(pos, mouse, dim, other, down)
    }
}

/// Velocity while resetting: a proportional approach toward the target along
/// the trajectory that began at `from`. With `rem = pos - target` and
/// `total = from - target`, this is `|rem / total| * (-rem)` in fixed point.
pub open spec fn velocity_resetting(pos: int, target: int, from: int) -> int {
    let total: int = from - target;
    let rem: int = pos - target;
    if rem >= 0 {
        -div_t(rem * rem, mag(total))
    } else {
        div_t(rem * rem, mag(total))
    }
}

/// Velocity in free mode: gravity is added, then friction damps the sum by
/// `1 - friction`.
pub open spec fn velocity_free(vel: int, g: int, friction: int) -> int {
    div_t((vel + g) * (1000 - friction), 1000)
}

/// Raw (unsaturated) velocity of one axis for a whole frame.
pub open spec fn raw_velocity_spec(
    resetting: bool,
    pos: int,
    target: int,
    from: int,
    vel: int,
    g: int,
    friction: int,
) -> int {
    if resetting {
        velocity_resetting(pos, target, from)
    } else {
        velocity_free(vel, g, friction)
    }
}

/// Sign-preserving saturation of a velocity to one hundred units.
pub open spec fn saturate(v: int) -> int {
    if v > MAX_VELOCITY {
        MAX_VELOCITY as int
    } else if v < -MAX_VELOCITY {
        -MAX_VELOCITY as int
    } else {
        v
    }
}

/// Velocity after a wall bounce: the sign flips and the magnitude scales by
/// the restitution factor; vertical bounces lose an extra tenth.
pub open spec fn bounce(v: int, restitution: int, vertical: bool) -> int {
    if vertical {
        div_t(-9 * restitution * v, 10000)
    } else {
        div_t(-restitution * v, 1000)
    }
}

/// Position after the boundary check: clamped into `[pad, dim - pad]`.
pub open spec fn collided_position(pos: int, dim: int) -> int {
    let pad: int = pad_of(dim);
    if pos > dim - pad {
        dim - pad
    } else if pos < pad {
        pad
    } else {
        pos
    }
}

/// Velocity after the boundary check: bounced exactly when the position
/// update left the travel range, unchanged otherwise.
pub open spec fn collided_velocity(pos: int, v: int, dim: int, restitution: int, vertical: bool) -> int {
    let pad: int = pad_of(dim);
    if pos > dim - pad || pos < pad {
        bounce(v, restitution, vertical)
    } else {
        v
    }
}

/// Pseudo-gravity of the horizontal axis.
pub open spec fn gravity_x(s: PointState, p: PointerInput) -> int {
    gravity_spec(s.is_resetting, s.x, s.initial_x, p.mouse_x, p.width, p.height, p.mouse_down)
}

/// Pseudo-gravity of the vertical axis.
pub open spec fn gravity_y(s: PointState, p: PointerInput) -> int {
    gravity_spec(s.is_resetting, s.y, s.initial_y, p.mouse_y, p.height, p.width, p.mouse_down)
}

/// Horizontal velocity before saturation.
pub open spec fn raw_velocity_x(s: PointState, p: PointerInput) -> int {
    raw_velocity_spec(
        s.is_resetting,
        s.x,
        s.initial_x,
        s.reset_from_x,
        s.x_velocity,
        gravity_x(s, p),
        s.friction,
    )
}

/// Vertical velocity before saturation.
pub open spec fn raw_velocity_y(s: PointState, p: PointerInput) -> int {
    raw_velocity_spec(
        s.is_resetting,
        s.y,
        s.initial_y,
        s.reset_from_y,
        s.y_velocity,
        gravity_y(s, p),
        s.friction,
    )
}

/// Horizontal velocity after saturation.
pub open spec fn stepped_velocity_x(s: PointState, p: PointerInput) -> int {
    saturate(raw_velocity_x(s, p))
}

/// Vertical velocity after saturation.
pub open spec fn stepped_velocity_y(s: PointState, p: PointerInput) -> int {
    saturate(raw_velocity_y(s, p))
}

/// Horizontal position after the position update, before the boundary check.
pub open spec fn raw_position_x(s: PointState, p: PointerInput) -> int {
    s.x + stepped_velocity_x(s, p)
}

/// Vertical position after the position update, before the boundary check.
pub open spec fn raw_position_y(s: PointState, p: PointerInput) -> int {
    s.y + stepped_velocity_y(s, p)
}

/// Horizontal position after the boundary check.
pub open spec fn new_position_x(s: PointState, p: PointerInput) -> int {
    collided_position(raw_position_x(s, p), p.width)
}

/// Vertical position after the boundary check.
pub open spec fn new_position_y(s: PointState, p: PointerInput) -> int {
    collided_position(raw_position_y(s, p), p.height)
}

/// Horizontal velocity after the boundary check.
pub open spec fn new_velocity_x(s: PointState, p: PointerInput) -> int {
    collided_velocity(raw_position_x(s, p), stepped_velocity_x(s, p), p.width, s.restitution, false)
}

/// Vertical velocity after the boundary check.
pub open spec fn new_velocity_y(s: PointState, p: PointerInput) -> int {
    collided_velocity(raw_position_y(s, p), stepped_velocity_y(s, p), p.height, s.restitution, true)
}

/// The convergence check fires: the step was resetting and, after the
/// boundary check, the point is within one unit of its resting position on
/// both axes and slower than a tenth of a unit on both axes.
pub open spec fn snaps(s: PointState, p: PointerInput) -> bool {
    &&& s.is_resetting
    &&& mag(new_position_x(s, p) - s.initial_x) < SNAP_POS_EPS
    &&& mag(new_position_y(s, p) - s.initial_y) < SNAP_POS_EPS
    &&& mag(new_velocity_x(s, p)) < SNAP_VEL_EPS
    &&& mag(new_velocity_y(s, p)) < SNAP_VEL_EPS
}

/// The full step: gravity, velocity, saturation, position update, boundary
/// restitution, and the convergence snap. The `reset_from`, `initial`,
/// `friction` and `restitution` fields pass through verbatim.
pub open spec fn step_spec(s: PointState, p: PointerInput) -> PointState {
    if snaps(s, p) {
        PointState {
            x: s.initial_x,
            y: s.initial_y,
            reset_from_x: s.reset_from_x,
            reset_from_y: s.reset_from_y,
            initial_x: s.initial_x,
            initial_y: s.initial_y,
            x_velocity: 0,
            y_velocity: 0,
            x_gravity: 0,
            y_gravity: 0,
            friction: s.friction,
            restitution: s.restitution,
            is_resetting: false,
        }
    } else {
        PointState {
            x: new_position_x(s, p),
            y: new_position_y(s, p),
            reset_from_x: s.reset_from_x,
            reset_from_y: s.reset_from_y,
            initial_x: s.initial_x,
            initial_y: s.initial_y,
            x_velocity: new_velocity_x(s, p),
            y_velocity: new_velocity_y(s, p),
            x_gravity: gravity_x(s, p),
            y_gravity: gravity_y(s, p),
            friction: s.friction,
            restitution: s.restitution,
            is_resetting: s.is_resetting,
        }
    }
}

/// The state model built from the scalar arguments of `calculate_position`.
pub open spec fn state_of(
    x: i64,
    y: i64,
    x_velocity: i64,
    y_velocity: i64,
    x_gravity: i64,
    y_gravity: i64,
    is_resetting: bool,
    reset_from_x: i64,
    reset_from_y: i64,
    friction: i64,
    restitution: i64,
    initial_x: i64,
    initial_y: i64,
) -> PointState {
    PointState {
        x: x as int,
        y: y as int,
        reset_from_x: reset_from_x as int,
        reset_from_y: reset_from_y as int,
        initial_x: initial_x as int,
        initial_y: initial_y as int,
        x_velocity: x_velocity as int,
        y_velocity: y_velocity as int,
        x_gravity: x_gravity as int,
        y_gravity: y_gravity as int,
        friction: friction as int,
        restitution: restitution as int,
        is_resetting,
    }
}

/// The input model built from the scalar arguments of `calculate_position`.
pub open spec fn pointer_of(mouse_x: i64, mouse_y: i64, mouse_down: bool, width: i64, height: i64) -> PointerInput {
    PointerInput {
        mouse_x: mouse_x as int,
        mouse_y: mouse_y as int,
        mouse_down,
        width: width as int,
        height: height as int,
    }
}

/// Boundary clamp law, horizontal axis: whenever the position update leaves
/// the travel range `[pad, width - pad]` and the step does not end in a
/// convergence snap, the returned position equals the violated bound exactly
/// and the velocity is sign-flipped with its magnitude scaled by the
/// restitution factor.
pub proof fn lemma_boundary_clamp_x(s: PointState, p: PointerInput)
    requires
        valid_input(s, p),
        !snaps(s, p),
    ensures
        raw_position_x(s, p) > p.width - pad_of(p.width) ==> step_spec(s, p).x == p.width - pad_of(
            p.width,
        ) && step_spec(s, p).x_velocity == bounce(stepped_velocity_x(s, p), s.restitution, false),
        raw_position_x(s, p) < pad_of(p.width) ==> step_spec(s, p).x == pad_of(p.width)
            && step_spec(s, p).x_velocity == bounce(stepped_velocity_x(s, p), s.restitution, false),
{
}

/// Boundary clamp law, vertical axis: as on the horizontal axis, except that
/// a vertical bounce loses an extra tenth of its energy.
pub proof fn lemma_boundary_clamp_y(s: PointState, p: PointerInput)
    requires
        valid_input(s, p),
        !snaps(s, p),
    ensures
        raw_position_y(s, p) > p.height - pad_of(p.height) ==> step_spec(s, p).y == p.height
            - pad_of(p.height) && step_spec(s, p).y_velocity == bounce(
            stepped_velocity_y(s, p),
            s.restitution,
            true,
        ),
        raw_position_y(s, p) < pad_of(p.height) ==> step_spec(s, p).y == pad_of(p.height)
            && step_spec(s, p).y_velocity == bounce(stepped_velocity_y(s, p), s.restitution, true),
{
}

/// Velocity saturation law: saturation maps any value beyond one hundred
/// units to exactly the signed bound, and its result always lies within it.
pub proof fn lemma_velocity_saturation(v: int)
    ensures
        v > MAX_VELOCITY ==> saturate(v) == MAX_VELOCITY,
        v < -MAX_VELOCITY ==> saturate(v) == -MAX_VELOCITY,
        -MAX_VELOCITY <= saturate(v) <= MAX_VELOCITY,
{
}

/// Velocity saturation law at step level, horizontal axis: when the raw
/// velocity exceeds the bound and the step neither bounces on that axis nor
/// ends in a convergence snap, the returned velocity is exactly the signed
/// bound.
pub proof fn lemma_velocity_saturation_x(s: PointState, p: PointerInput)
    requires
        valid_input(s, p),
        !snaps(s, p),
        pad_of(p.width) <= raw_position_x(s, p) <= p.width - pad_of(p.width),
    ensures
        raw_velocity_x(s, p) > MAX_VELOCITY ==> step_spec(s, p).x_velocity == MAX_VELOCITY,
        raw_velocity_x(s, p) < -MAX_VELOCITY ==> step_spec(s, p).x_velocity == -MAX_VELOCITY,
{
}

/// Velocity saturation law at step level, vertical axis.
pub proof fn lemma_velocity_saturation_y(s: PointState, p: PointerInput)
    requires
        valid_input(s, p),
        !snaps(s, p),
        pad_of(p.height) <= raw_position_y(s, p) <= p.height - pad_of(p.height),
    ensures
        raw_velocity_y(s, p) > MAX_VELOCITY ==> step_spec(s, p).y_velocity == MAX_VELOCITY,
        raw_velocity_y(s, p) < -MAX_VELOCITY ==> step_spec(s, p).y_velocity == -MAX_VELOCITY,
{
}

/// Idempotence at rest: in free mode with the pointer up, zero velocity and
/// zero gravity, a step from a position inside the travel range of both axes
/// returns the state unchanged. (From a position outside the travel range the
/// boundary clamp would still move the point, so such positions are left
/// out.)
pub proof fn lemma_rest_is_fixed_point(s: PointState, p: PointerInput)
    requires
        valid_input(s, p),
        !s.is_resetting,
        !p.mouse_down,
        s.x_velocity == 0,
        s.y_velocity == 0,
        s.x_gravity == 0,
        s.y_gravity == 0,
        pad_of(p.width) <= s.x <= p.width - pad_of(p.width),
        pad_of(p.height) <= s.y <= p.height - pad_of(p.height),
    ensures
        step_spec(s, p) == s,
{
    assert(velocity_free(0, 0, s.friction) == div_t(0, 1000));
    assert(div_t(0, 1000) == 0) by {
        vstd::arithmetic::div_mod::lemma_div_of0(1000);
    }
}

/// Magnitude of an `i64`, executable.
pub(crate) fn mag64(a: i64) -> (r: i64)
    requires
        a > i64::MIN,
    ensures
        r == mag(a as int),
{
    if a >= 0 {
        a
    } else {
        -a
    }
}

/// Pseudo-gravity of one axis, executable.
fn axis_gravity(
    resetting: bool,
    pos: i64,
    target: i64,
    mouse: i64,
    dim: i64,
    other: i64,
    down: bool,
) -> (g: i64)
    requires
        1 <= dim <= DIM_LIMIT,
        1 <= other <= DIM_LIMIT,
        0 <= pos <= dim,
        0 <= target <= dim,
        -MOUSE_LIMIT <= mouse <= MOUSE_LIMIT,
    ensures
        g == gravity_spec(resetting, pos as int, target as int, mouse as int, dim as int, other as int, down),
        -GRAV_LIMIT <= g <= GRAV_LIMIT,
{
    if resetting {
        proof {
            lemma_div_t_bound(9810 * (target - pos), dim as int, 9810);
        }
        div_trunc(9810 * (target - pos), dim)
    } else if down {
        let off: i64 = div_trunc(1500 * (2 * pos - dim), dim);
        proof {
            lemma_div_t_bound(1500 * (2 * pos - dim), dim as int, 1500);
        }
        let pull: i64 = mouse - off;
        if dim > other {
            proof {
                assert((981 * dim) * pull <= 9_830_000_000_000_000 && (981 * dim) * pull
                    >= -9_830_000_000_000_000) by (nonlinear_arith)
                    requires
                        1 <= dim <= 10_000_000,
                        -1_001_500 <= pull <= 1_001_500,
                ;
                assert((10000 * other) * 983_000_000_000 >= 9_830_000_000_000_000) by (nonlinear_arith)
                    requires
                        other >= 1,
                ;
                lemma_div_t_bound(981 * dim * pull, 10000 * other, GRAV_LIMIT as int);
            }
            div_trunc(981 * dim * pull, 10000 * other)
        } else {
            proof {
                lemma_div_t_mag(981 * pull, 10000);
            }
            div_trunc(981 * pull, 10000)
        }
    } else {
        0
    }
}

/// Saturated velocity of one axis, executable.
fn axis_velocity(
    resetting: bool,
    pos: i64,
    target: i64,
    from: i64,
    vel: i64,
    g: i64,
    friction: i64,
) -> (v: i64)
    requires
        -DIM_LIMIT <= pos <= DIM_LIMIT,
        -DIM_LIMIT <= target <= DIM_LIMIT,
        -DIM_LIMIT <= from <= DIM_LIMIT,
        -VEL_LIMIT <= vel <= VEL_LIMIT,
        -GRAV_LIMIT <= g <= GRAV_LIMIT,
        0 <= friction <= SCALE,
        resetting ==> from != target,
    ensures
        v == saturate(
            raw_velocity_spec(resetting, pos as int, target as int, from as int, vel as int, g as int, friction as int),
        ),
        -MAX_VELOCITY <= v <= MAX_VELOCITY,
{
    let raw: i64;
    if resetting {
        let total: i64 = from - target;
        let rem: i64 = pos - target;
        let tmag: i64 = mag64(total);
        proof {
            assert(rem * rem >= 0 && rem * rem <= 400_000_000_000_000) by (nonlinear_arith)
                requires
                    -20_000_000 <= rem <= 20_000_000,
            ;
            lemma_div_t_mag(rem * rem, tmag as int);
        }
        let q: i64 = div_trunc(rem * rem, tmag);
        raw = if rem >= 0 {
            -q
        } else {
            q
        };
    } else {
        let sum: i64 = vel + g;
        proof {
            assert(sum * (1000 - friction) <= 984_000_000_000_000 && sum * (1000 - friction)
                >= -984_000_000_000_000) by (nonlinear_arith)
                requires
                    -984_000_000_000 <= sum <= 984_000_000_000,
                    0 <= friction <= 1000,
            ;
        }
        raw = div_trunc(sum * (1000 - friction), 1000);
    }
    if raw > MAX_VELOCITY {
        MAX_VELOCITY
    } else if raw < -MAX_VELOCITY {
        -MAX_VELOCITY
    } else {
        raw
    }
}

/// Wall bounce of one axis, executable.
fn axis_bounce(v: i64, restitution: i64, vertical: bool) -> (r: i64)
    requires
        -MAX_VELOCITY <= v <= MAX_VELOCITY,
        0 <= restitution <= SCALE,
    ensures
        r == bounce(v as int, restitution as int, vertical),
        -MAX_VELOCITY <= r <= MAX_VELOCITY,
{
    if vertical {
        proof {
            assert((-9 * restitution) * v <= 900_000_000 && (-9 * restitution) * v
                >= -900_000_000) by (nonlinear_arith)
                requires
                    0 <= restitution <= 1000,
                    -100_000 <= v <= 100_000,
            ;
            lemma_div_t_bound(-9 * restitution * v, 10000, MAX_VELOCITY as int);
        }
        div_trunc(-9 * restitution * v, 10000)
    } else {
        proof {
            assert((-restitution) * v <= 100_000_000 && (-restitution) * v >= -100_000_000)
                by (nonlinear_arith)
                requires
                    0 <= restitution <= 1000,
                    -100_000 <= v <= 100_000,
            ;
            lemma_div_t_bound(-restitution * v, 1000, MAX_VELOCITY as int);
        }
        div_trunc(-restitution * v, 1000)
    }
}

/// The per-frame physics step. Takes the point's full state and the frame's
/// pointer input, and returns the complete next state. The result is exactly
/// `step_spec` of the inputs; in free mode with the pointer up, gravity is
/// exactly zero; the returned velocities lie within one hundred units;
/// without a convergence snap the returned position lies in
/// `[pad, dim - pad]` on both axes; and the returned state is again a valid
/// state for the same viewport, so frames chain.
///
/// The precondition is the caller contract: positive dimensions, positions
/// inside the viewport, damping factors within one, machine bounds on the
/// remaining magnitudes, and — while resetting — a trajectory that does not
/// start on the resting position on either axis, since a zero-length axis
/// trajectory would divide by zero. The incoming gravity fields are
/// informational only: both are recomputed from scratch before they are
/// read.
#[allow(unused_variables)]
pub fn calculate_position(
    mouse_x: i64,
    mouse_y: i64,
    mouse_down: bool,
    x: i64,
    y: i64,
    x_velocity: i64,
    y_velocity: i64,
    x_gravity: i64,
    y_gravity: i64,
    is_resetting: bool,
    reset_from_x: i64,
    reset_from_y: i64,
    friction: i64,
    restitution: i64,
    initial_x: i64,
    initial_y: i64,
    width: i64,
    height: i64,
) -> (r: Square)
    requires
        valid_input(
            state_of(
                x,
                y,
                x_velocity,
                y_velocity,
                x_gravity,
                y_gravity,
                is_resetting,
                reset_from_x,
                reset_from_y,
                friction,
                restitution,
                initial_x,
                initial_y,
            ),
            pointer_of(mouse_x, mouse_y, mouse_down, width, height),
        ),
    ensures
        r@ == step_spec(
            state_of(
                x,
                y,
                x_velocity,
                y_velocity,
                x_gravity,
                y_gravity,
                is_resetting,
                reset_from_x,
                reset_from_y,
                friction,
                restitution,
                initial_x,
                initial_y,
            ),
            pointer_of(mouse_x, mouse_y, mouse_down, width, height),
        ),
        !is_resetting && !mouse_down ==> r.x_gravity == 0 && r.y_gravity == 0,
        -MAX_VELOCITY <= r.x_velocity <= MAX_VELOCITY,
        -MAX_VELOCITY <= r.y_velocity <= MAX_VELOCITY,
        valid_state(r@, width as int, height as int),
        !snaps(
            state_of(
                x,
                y,
                x_velocity,
                y_velocity,
                x_gravity,
                y_gravity,
                is_resetting,
                reset_from_x,
                reset_from_y,
                friction,
                restitution,
                initial_x,
                initial_y,
            ),
            pointer_of(mouse_x, mouse_y, mouse_down, width, height),
        ) ==> pad_of(width as int) <= r.x <= width - pad_of(width as int) && pad_of(height as int)
            <= r.y <= height - pad_of(height as int),
{
    let ghost s: PointState = state_of(
        x,
        y,
        x_velocity,
        y_velocity,
        x_gravity,
        y_gravity,
        is_resetting,
        reset_from_x,
        reset_from_y,
        friction,
        restitution,
        initial_x,
        initial_y,
    );
    let ghost p: PointerInput = pointer_of(mouse_x, mouse_y, mouse_down, width, height);

    let gx: i64 = axis_gravity(is_resetting, x, initial_x, mouse_x, width, height, mouse_down);
    let gy: i64 = axis_gravity(is_resetting, y, initial_y, mouse_y, height, width, mouse_down);
    assert(gx == gravity_x(s, p));
    assert(gy == gravity_y(s, p));

    let vx: i64 = axis_velocity(is_resetting, x, initial_x, reset_from_x, x_velocity, gx, friction);
    let vy: i64 = axis_velocity(is_resetting, y, initial_y, reset_from_y, y_velocity, gy, friction);
    assert(vx == stepped_velocity_x(s, p));
    assert(vy == stepped_velocity_y(s, p));

    let raw_x: i64 = x + vx;
    let raw_y: i64 = y + vy;

    let pad_x: i64 = div_trunc(width, 40);
    let pad_y: i64 = div_trunc(height, 40);
    proof {
        lemma_div_t_bound(width as int, 40, width as int);
        lemma_div_t_bound(height as int, 40, height as int);
        vstd::arithmetic::div_mod::lemma_fundamental_div_mod(width as int, 40);
        vstd::arithmetic::div_mod::lemma_fundamental_div_mod(height as int, 40);
    }

    let mut px: i64 = raw_x;
    let mut pvx: i64 = vx;
    if raw_x > width - pad_x {
        px = width - pad_x;
        pvx = axis_bounce(vx, restitution, false);
    } else if raw_x < pad_x {
        px = pad_x;
        pvx = axis_bounce(vx, restitution, false);
    }
    assert(px == new_position_x(s, p));
    assert(pvx == new_velocity_x(s, p));

    let mut py: i64 = raw_y;
    let mut pvy: i64 = vy;
    if raw_y > height - pad_y {
        py = height - pad_y;
        pvy = axis_bounce(vy, restitution, true);
    } else if raw_y < pad_y {
        py = pad_y;
        pvy = axis_bounce(vy, restitution, true);
    }
    assert(py == new_position_y(s, p));
    assert(pvy == new_velocity_y(s, p));

    if is_resetting && mag64(px - initial_x) < SNAP_POS_EPS && mag64(py - initial_y) < SNAP_POS_EPS
        && mag64(pvx) < SNAP_VEL_EPS && mag64(pvy) < SNAP_VEL_EPS {
        assert(snaps(s, p));
        Square {
            x: initial_x,
            y: initial_y,
            reset_from_x,
            reset_from_y,
            initial_x,
            initial_y,
            x_velocity: 0,
            y_velocity: 0,
            x_gravity: 0,
            y_gravity: 0,
            friction,
            restitution,
            is_resetting: false,
        }
    } else {
        assert(!snaps(s, p));
        Square {
            x: px,
            y: py,
            reset_from_x,
            reset_from_y,
            initial_x,
            initial_y,
            x_velocity: pvx,
            y_velocity: pvy,
            x_gravity: gx,
            y_gravity: gy,
            friction,
            restitution,
            is_resetting,
        }
    }
}

} // verus!
