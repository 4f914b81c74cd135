//! What holds of every tick.

use vstd::prelude::*;
use crate::collision::{blocked, overlaps, settled, shifted, PLAYER_RADIUS, WALL_SIZE};
use crate::fixed::{lemma_trunc_div_bound, saturated, scaled, trunc_div, SCALE};
use crate::physics::{
    axis, fallen, input_direction, jumped, move_delta, rotated, slid, walked, GRAVITY, GROUND_Y,
    PLAYER_SPEED,
};
use crate::state::{CameraYaw, InputSnapshot, LocomotionState, Vec3};
use crate::tick::{locomoted, ticked};

verus! {

/// With locomotion disabled, gravity, jump and keys do nothing at all, and
/// a whole tick changes neither the velocity, nor the grounded flag, nor
/// the height.
pub proof fn lemma_disabled_stops_locomotion(
    s: LocomotionState,
    input: InputSnapshot,
    camera: Option<CameraYaw>,
    colliders: Seq<Vec3>,
    dt: int,
)
    ensures
        locomoted(s, false, input, camera, colliders, dt) == s,
        ticked(s, false, input, camera, colliders, dt).vertical_velocity == s.vertical_velocity,
        ticked(s, false, input, camera, colliders, dt).grounded == s.grounded,
        ticked(s, false, input, camera, colliders, dt).position.y == s.position.y,
{
}

/// With locomotion disabled, a tick leaves the state exactly as it was, for
/// every entity that the corrector has no reason to move.
pub proof fn lemma_disabled_tick_freezes(
    s: LocomotionState,
    input: InputSnapshot,
    camera: Option<CameraYaw>,
    colliders: Seq<Vec3>,
    dt: int,
)
    requires
        settled(s.position, colliders),
    ensures
        ticked(s, false, input, camera, colliders, dt) == s,
{
}

/// A tick with locomotion enabled that starts at or below the ground, and
/// in which no jump is asked for, ends on the ground, at rest and grounded.
pub proof fn lemma_ground_clamp(
    s: LocomotionState,
    input: InputSnapshot,
    camera: Option<CameraYaw>,
    colliders: Seq<Vec3>,
    dt: int,
)
    requires
        s.position.y <= GROUND_Y,
        !input.jump_pressed,
    ensures
        ticked(s, true, input, camera, colliders, dt).position.y == GROUND_Y,
        ticked(s, true, input, camera, colliders, dt).vertical_velocity == 0,
        ticked(s, true, input, camera, colliders, dt).grounded,
{
}

/// In a tick with locomotion enabled that starts above the ground and
/// lasts some time, the vertical velocity falls, whatever the keys say.
/// Only a velocity that is already the least that can be stored stays.
pub proof fn lemma_gravity_lowers_velocity(
    s: LocomotionState,
    input: InputSnapshot,
    camera: Option<CameraYaw>,
    colliders: Seq<Vec3>,
    dt: int,
)
    requires
        s.position.y > GROUND_Y,
        dt > 0,
        s.vertical_velocity > i64::MIN,
    ensures
        ticked(s, true, input, camera, colliders, dt).vertical_velocity < s.vertical_velocity,
        !ticked(s, true, input, camera, colliders, dt).grounded,
{
    lemma_gravity_gain_negative(dt);
}

/// Over any positive time gravity takes at least one step of velocity.
pub proof fn lemma_gravity_gain_negative(dt: int)
    requires
        dt > 0,
    ensures
        scaled(GRAVITY as int, dt) <= -1,
{
    assert(GRAVITY * dt == -9_800_000 * dt);
    lemma_trunc_div_bound(-9_800_000 * dt, SCALE as int, 9_800_000 * dt);
}

/// The jump key does nothing to an entity that is not grounded.
pub proof fn lemma_no_jump_unless_grounded(s: LocomotionState, jump_pressed: bool)
    requires
        !s.grounded,
    ensures
        jumped(s, jump_pressed) == s,
{
}

/// In a tick with locomotion enabled that starts above the ground, the
/// jump key makes no difference to the vertical velocity: it is what
/// gravity alone leaves.
pub proof fn lemma_no_jump_in_the_air(
    s: LocomotionState,
    input: InputSnapshot,
    camera: Option<CameraYaw>,
    colliders: Seq<Vec3>,
    dt: int,
)
    requires
        s.position.y > GROUND_Y,
    ensures
        ticked(s, true, input, camera, colliders, dt).vertical_velocity == fallen(
            s,
            dt,
        ).vertical_velocity,
        ticked(s, true, input, camera, colliders, dt).vertical_velocity == saturated(
            s.vertical_velocity + scaled(GRAVITY as int, dt),
        ),
{
}

/// Sliding along `z`: where the step along `x` leads into a collider and
/// the step along `z` alone does not, `x` stays and `z` takes its whole
/// step.
pub proof fn lemma_slide_keeps_free_z(p: Vec3, dx: int, dz: int, colliders: Seq<Vec3>)
    requires
        blocked(shifted(p, dx, 0), colliders),
        !blocked(shifted(p, 0, dz), colliders),
    ensures
        slid(p, dx, dz, colliders) == shifted(p, 0, dz),
        slid(p, dx, dz, colliders).x == p.x,
        slid(p, dx, dz, colliders).z == saturated(p.z + dz),
        i64::MIN <= p.z + dz <= i64::MAX ==> slid(p, dx, dz, colliders).z == p.z + dz,
{
}

/// Sliding along `x`: where the step along `x` is free and the step along
/// `z` that follows it leads into a collider, `x` takes its whole step and
/// `z` stays.
pub proof fn lemma_slide_keeps_free_x(p: Vec3, dx: int, dz: int, colliders: Seq<Vec3>)
    requires
        !blocked(shifted(p, dx, 0), colliders),
        blocked(shifted(shifted(p, dx, 0), 0, dz), colliders),
    ensures
        slid(p, dx, dz, colliders) == shifted(p, dx, 0),
        slid(p, dx, dz, colliders).z == p.z,
        slid(p, dx, dz, colliders).x == saturated(p.x + dx),
        i64::MIN <= p.x + dx <= i64::MAX ==> slid(p, dx, dz, colliders).x == p.x + dx,
{
}

/// Sliding never ends inside a collider that the entity was not already
/// inside of, and never changes the height.
pub proof fn lemma_slide_stays_free(p: Vec3, dx: int, dz: int, colliders: Seq<Vec3>)
    requires
        !blocked(p, colliders),
    ensures
        !blocked(slid(p, dx, dz, colliders), colliders),
        slid(p, dx, dz, colliders).y == p.y,
{
}

/// The overlap test along one axis: straight beside a collider, the entity
/// touches it exactly where it is closer to the centre than radius and
/// half-extent together, on either side alike.
pub proof fn lemma_overlap_beside(p: Vec3, c: Vec3)
    requires
        p.z == c.z,
    ensures
        overlaps(p, c) <==> -(PLAYER_RADIUS + WALL_SIZE) < p.x - c.x < PLAYER_RADIUS + WALL_SIZE,
{
}

/// The overlap test is symmetric: two places that mirror each other in the
/// centre of a collider touch it or miss it together, and the heights of
/// entity and collider do not matter.
pub proof fn lemma_overlap_symmetric(p: Vec3, q: Vec3, c: Vec3)
    requires
        p.x - c.x == c.x - q.x,
        p.z - c.z == c.z - q.z,
    ensures
        overlaps(p, c) == overlaps(q, c),
        overlaps(p, c) == overlaps(Vec3 { x: p.x, y: q.y, z: p.z }, Vec3 { x: c.x, y: p.y, z: c.z }),
{
}

/// Ticks with locomotion disabled leave no trace in what follows: for an
/// entity that the corrector has no reason to move, a disabled tick and
/// then an enabled one end where the enabled one alone would have.
pub proof fn lemma_resume_after_freeze(
    s: LocomotionState,
    frozen_input: InputSnapshot,
    frozen_camera: Option<CameraYaw>,
    frozen_dt: int,
    input: InputSnapshot,
    camera: Option<CameraYaw>,
    colliders: Seq<Vec3>,
    dt: int,
)
    requires
        settled(s.position, colliders),
    ensures
        ticked(
            ticked(s, false, frozen_input, frozen_camera, colliders, frozen_dt),
            true,
            input,
            camera,
            colliders,
            dt,
        ) == ticked(s, true, input, camera, colliders, dt),
{
}

/// Keys that ask for no direction, none held or opposite ones held
/// together, move nothing along the ground, whatever camera and colliders.
pub proof fn lemma_no_direction_no_move(
    s: LocomotionState,
    input: InputSnapshot,
    camera: Option<CameraYaw>,
    colliders: Seq<Vec3>,
    dt: int,
)
    requires
        input.left == input.right,
        input.forward == input.back,
    ensures
        input_direction(input) == (0int, 0int),
        camera matches Some(c) ==> move_delta(input, c, dt) == (0int, 0int),
        walked(s, input, camera, colliders, dt) == s,
{
    assert(input_direction(input) == (0int, 0int));
    match camera {
        Some(c) => {
            let reach = scaled(PLAYER_SPEED as int, dt);
            assert(rotated((0int, 0int), c) == (0int, 0int)) by {
                assert(0int * c.cos_part() + 0int * c.sin_part() == 0) by (nonlinear_arith);
                assert(0int * c.cos_part() - 0int * c.sin_part() == 0) by (nonlinear_arith);
            }
            assert(scaled(0, reach) == 0) by {
                assert(0int * reach == 0) by (nonlinear_arith);
            }
            assert(move_delta(input, c, dt) == (0int, 0int));
            assert(shifted(s.position, 0, 0) == s.position);
        },
        None => {},
    }
}

/// The direction that the keys give has length zero or one: the square of
/// its length, in millionths of a millionth, is zero or within a millionth
/// of one. It is zero exactly where the keys of each axis cancel.
pub proof fn lemma_direction_is_unit_or_zero(input: InputSnapshot)
    ensures
        ({
            let d = input_direction(input);
            let square = d.0 * d.0 + d.1 * d.1;
            square == 0 || 999_999_000_000 < square < 1_000_001_000_000
        }),
        (input.left == input.right && input.forward == input.back) <==> input_direction(input)
            == (0int, 0int),
{
    let x = axis(input.left, input.right);
    let z = axis(input.forward, input.back);
    let d = input_direction(input);
    assert(x == -1 || x == 0 || x == 1);
    assert(z == -1 || z == 0 || z == 1);
    assert(707_107int * 707_107 == 500_000_309_449) by (nonlinear_arith);
    assert((-707_107int) * (-707_107) == 500_000_309_449) by (nonlinear_arith);
    assert(1_000_000int * 1_000_000 == 1_000_000_000_000) by (nonlinear_arith);
    assert((-1_000_000int) * (-1_000_000) == 1_000_000_000_000) by (nonlinear_arith);
    if x != 0 && z != 0 {
        assert(d.0 == 707_107 || d.0 == -707_107);
        assert(d.1 == 707_107 || d.1 == -707_107);
        assert(d.0 * d.0 + d.1 * d.1 == 1_000_000_618_898);
    } else if x != 0 {
        assert(d.0 == 1_000_000 || d.0 == -1_000_000);
        assert(d.1 == 0);
        assert(d.0 * d.0 + d.1 * d.1 == 1_000_000_000_000);
    } else if z != 0 {
        assert(d.1 == 1_000_000 || d.1 == -1_000_000);
        assert(d.0 == 0);
        assert(d.0 * d.0 + d.1 * d.1 == 1_000_000_000_000);
    } else {
        assert(d == (0int, 0int));
        assert(d.0 * d.0 + d.1 * d.1 == 0) by (nonlinear_arith)
            requires
                d.0 == 0,
                d.1 == 0,
        ;
    }
}

/// Height plays no part in collisions: two places above one another are
/// blocked or free together.
pub proof fn lemma_blocked_at_any_height(p: Vec3, q: Vec3, colliders: Seq<Vec3>)
    requires
        p.x == q.x,
        p.z == q.z,
    ensures
        blocked(p, colliders) == blocked(q, colliders),
{
    if blocked(p, colliders) {
        let i = choose|i: int| 0 <= i < colliders.len() && overlaps(p, #[trigger] colliders[i]);
        assert(overlaps(q, colliders[i]));
    }
    if blocked(q, colliders) {
        let i = choose|i: int| 0 <= i < colliders.len() && overlaps(q, #[trigger] colliders[i]);
        assert(overlaps(p, colliders[i]));
    }
}

/// No tick leads into a collider: an entity that is free before a tick is
/// free after it, with locomotion enabled or not, whatever keys, camera
/// and length of the tick.
pub proof fn lemma_tick_keeps_free(
    s: LocomotionState,
    enabled: bool,
    input: InputSnapshot,
    camera: Option<CameraYaw>,
    colliders: Seq<Vec3>,
    dt: int,
)
    requires
        !blocked(s.position, colliders),
    ensures
        !blocked(ticked(s, enabled, input, camera, colliders, dt).position, colliders),
{
    if enabled {
        let risen = jumped(fallen(s, dt), input.jump_pressed);
        lemma_blocked_at_any_height(s.position, risen.position, colliders);
        match camera {
            Some(c) => {
                let delta = move_delta(input, c, dt);
                lemma_slide_stays_free(risen.position, delta.0, delta.1, colliders);
            },
            None => {},
        }
    }
}

/// Sliding takes each axis whole or not at all, and takes nothing that was
/// not asked for.
pub proof fn lemma_slide_takes_whole_steps(p: Vec3, dx: int, dz: int, colliders: Seq<Vec3>)
    ensures
        slid(p, dx, dz, colliders).x == p.x || slid(p, dx, dz, colliders).x == saturated(p.x + dx),
        slid(p, dx, dz, colliders).z == p.z || slid(p, dx, dz, colliders).z == saturated(p.z + dz),
        slid(p, dx, dz, colliders).y == p.y,
        dx == 0 ==> slid(p, dx, dz, colliders).x == p.x,
        dz == 0 ==> slid(p, dx, dz, colliders).z == p.z,
{
}

/// Turning keeps the sum of squares, up to the factor that the squares of
/// sine and cosine make together.
proof fn lemma_turn_identity(x: int, z: int, k: int, s: int)
    ensures
        (x * k + z * s) * (x * k + z * s) + (z * k - x * s) * (z * k - x * s) == (x * x + z * z)
            * (k * k + s * s),
{
    let p = x * k;
    let q = z * s;
    let u = z * k;
    let v = x * s;
    assert((p + q) * (p + q) == p * p + 2 * (p * q) + q * q) by (nonlinear_arith);
    assert((u - v) * (u - v) == u * u - 2 * (u * v) + v * v) by (nonlinear_arith);
    assert(p * q == u * v) by (nonlinear_arith)
        requires
            p == x * k,
            q == z * s,
            u == z * k,
            v == x * s,
    ;
    assert(p * p == (x * x) * (k * k)) by (nonlinear_arith)
        requires
            p == x * k,
    ;
    assert(q * q == (z * z) * (s * s)) by (nonlinear_arith)
        requires
            q == z * s,
    ;
    assert(u * u == (z * z) * (k * k)) by (nonlinear_arith)
        requires
            u == z * k,
    ;
    assert(v * v == (x * x) * (s * s)) by (nonlinear_arith)
        requires
            v == x * s,
    ;
    let xx = x * x;
    let zz = z * z;
    let kk = k * k;
    let ss = s * s;
    assert((xx + zz) * (kk + ss) == xx * kk + xx * ss + zz * kk + zz * ss) by (nonlinear_arith);
}

/// The square of a quotient rounded toward zero, against the square of
/// what was divided.
proof fn lemma_square_of_quotient(a: int, d: int, bound: int)
    by (nonlinear_arith)
    requires
        d >= 1,
        -bound <= a <= bound,
    ensures
        (d * d) * (trunc_div(a, d) * trunc_div(a, d)) <= a * a,
        (d * d) * (trunc_div(a, d) * trunc_div(a, d)) >= a * a - 2 * d * bound,
{
    let q = trunc_div(a, d);
    if a >= 0 {
        let r = a - d * q;
        assert(0 <= r < d);
        assert((d * q) * (d * q) == (d * d) * (q * q));
        assert((d * q) * (d * q) == a * a - 2 * a * r + r * r);
        assert(r * r <= a * r);
        assert(a * r <= a * d);
    } else {
        let r = (-a) - d * (-q);
        assert(0 <= r < d);
        assert((d * q) * (d * q) == (d * d) * (q * q));
        assert((d * q) * (d * q) == a * a - 2 * (-a) * r + r * r);
        assert(r * r <= (-a) * r);
        assert((-a) * r <= (-a) * d);
    }
}

/// A number whose square is below the square of `t` is below `t`.
proof fn lemma_root_bound(a: int, t: int)
    by (nonlinear_arith)
    requires
        t > 0,
        a * a < t * t,
    ensures
        -t < a < t,
{
}

/// A product of two numbers that lie between positive bounds lies between
/// the products of the bounds.
proof fn lemma_product_between(n: int, m: int, n_low: int, n_high: int, m_low: int, m_high: int)
    by (nonlinear_arith)
    requires
        0 <= n_low <= n <= n_high,
        0 <= m_low <= m <= m_high,
    ensures
        n_low * m_low <= n * m <= n_high * m_high,
{
}

/// Turning by the camera's yaw keeps a direction's length: a direction of
/// length one has, in world space, a length whose square is within a
/// hundred-thousandth of one.
pub proof fn lemma_yaw_keeps_length(input: InputSnapshot, camera: CameraYaw)
    requires
        camera.wf(),
        input_direction(input) != (0int, 0int),
    ensures
        ({
            let w = rotated(input_direction(input), camera);
            999_990_000_000 <= w.0 * w.0 + w.1 * w.1 <= 1_000_010_000_000
        }),
{
    let d = input_direction(input);
    let (x, z) = d;
    let k = camera.cos_part();
    let s = camera.sin_part();
    let a = x * k + z * s;
    let b = z * k - x * s;
    let w = rotated(d, camera);
    let unit = SCALE as int;
    assert(unit == 1_000_000);
    assert(unit * unit == 1_000_000_000_000) by (nonlinear_arith)
        requires
            unit == 1_000_000,
    ;
    lemma_direction_is_unit_or_zero(input);
    let n = x * x + z * z;
    let m = k * k + s * s;
    assert(x * x >= 0 && z * z >= 0) by (nonlinear_arith);
    assert(n != 0) by (nonlinear_arith)
        requires
            n == x * x + z * z,
            x != 0 || z != 0,
    ;
    assert(999_999_000_000 < n < 1_000_001_000_000);
    assert(999_996_000_000 <= m <= 1_000_004_000_000);
    lemma_turn_identity(x, z, k, s);
    assert(a * a + b * b == n * m);
    lemma_product_between(
        n,
        m,
        999_999_000_000,
        1_000_001_000_000,
        999_996_000_000,
        1_000_004_000_000,
    );
    assert(999_999_000_000int * 999_996_000_000 == 999_995_000_004_000_000_000_000)
        by (nonlinear_arith);
    assert(1_000_001_000_000int * 1_000_004_000_000 == 1_000_005_000_004_000_000_000_000)
        by (nonlinear_arith);
    let t: int = 1_000_003_000_000;
    assert(t * t == 1_000_006_000_009_000_000_000_000) by (nonlinear_arith)
        requires
            t == 1_000_003_000_000,
    ;
    assert(a * a >= 0 && b * b >= 0) by (nonlinear_arith);
    lemma_root_bound(a, t);
    lemma_root_bound(b, t);
    lemma_square_of_quotient(a, unit, t);
    lemma_square_of_quotient(b, unit, t);
    assert(w.0 == trunc_div(a, unit) && w.1 == trunc_div(b, unit));
    let sq = w.0 * w.0 + w.1 * w.1;
    assert((unit * unit) * sq == (unit * unit) * (w.0 * w.0) + (unit * unit) * (w.1 * w.1))
        by (nonlinear_arith)
        requires
            sq == w.0 * w.0 + w.1 * w.1,
    ;
    assert(1_000_000_000_000 * sq <= n * m);
    assert(1_000_000_000_000 * sq >= n * m - 4 * unit * t);
}

} // verus!
