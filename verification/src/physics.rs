//! The vertical integrator and the horizontal locomotion of one tick.

use vstd::prelude::*;
use crate::collision::{blocked, is_position_blocked, shift, shifted};
use crate::fixed::{
    div_toward_zero, lemma_product_bound, lemma_trunc_div_bound, mul_scaled, saturate, saturated,
    scaled, trunc_div, SCALE,
};
use crate::state::{CameraYaw, InputSnapshot, LocomotionState, Vec3};

verus! {

/// Ground speed of the entity, per second.
pub const PLAYER_SPEED: i64 = 15_000_000;

/// Vertical acceleration, per second squared. It points down.
pub const GRAVITY: i64 = -9_800_000;

/// The vertical velocity that a jump gives.
pub const JUMP_FORCE: i64 = 5_500_000;

/// The height at which the entity rests.
pub const GROUND_Y: i64 = 2_000_000;

/// One over the square root of two: each component of a unit vector that
/// points along a diagonal.
pub const UNIT_DIAGONAL: i64 = 707_107;

/// The pull of two opposite keys along one axis: -1, 0 or 1.
pub open spec fn axis(negative: bool, positive: bool) -> int {
    (if positive { 1int } else { 0int }) - (if negative { 1int } else { 0int })
}

/// The direction that the keys ask for, before the camera is taken into
/// account: `x` to the right, `z` backward, of length one or zero.
pub open spec fn input_direction(input: InputSnapshot) -> (int, int) {
    let x = axis(input.left, input.right);
    let z = axis(input.forward, input.back);
    if x != 0 && z != 0 {
        (x * UNIT_DIAGONAL, z * UNIT_DIAGONAL)
    } else {
        (x * SCALE, z * SCALE)
    }
}

/// `dir` turned about the vertical axis by the camera's yaw.
pub open spec fn rotated(dir: (int, int), camera: CameraYaw) -> (int, int) {
    (
        trunc_div(dir.0 * camera.cos_part() + dir.1 * camera.sin_part(), SCALE as int),
        trunc_div(dir.1 * camera.cos_part() - dir.0 * camera.sin_part(), SCALE as int),
    )
}

/// The displacement along `x` and `z` that the keys ask for in a tick of
/// length `dt`: the direction in world space, times speed, times `dt`.
pub open spec fn move_delta(input: InputSnapshot, camera: CameraYaw, dt: int) -> (int, int) {
    let dir = rotated(input_direction(input), camera);
    let reach = scaled(PLAYER_SPEED as int, dt);
    (saturated(scaled(dir.0, reach)), saturated(scaled(dir.1, reach)))
}

/// Where an entity at `p` ends that tries to move by `dx`, then by `dz`:
/// each axis is taken if the place it leads to is free, and given up if
/// not, the second from wherever the first has left the entity.
pub open spec fn slid(p: Vec3, dx: int, dz: int, colliders: Seq<Vec3>) -> Vec3 {
    let along_x = shifted(p, dx, 0);
    let q = if blocked(along_x, colliders) { p } else { along_x };
    let along_z = shifted(q, 0, dz);
    if blocked(along_z, colliders) { q } else { along_z }
}

/// The state after the ground check and, in the air, one step of gravity.
pub open spec fn fallen(s: LocomotionState, dt: int) -> LocomotionState {
    if s.position.y <= GROUND_Y {
        LocomotionState {
            position: Vec3 { x: s.position.x, y: GROUND_Y, z: s.position.z },
            vertical_velocity: 0,
            grounded: true,
        }
    } else {
        let v = saturated(s.vertical_velocity + scaled(GRAVITY as int, dt));
        LocomotionState {
            position: Vec3 {
                x: s.position.x,
                y: saturated(s.position.y + scaled(v, dt)) as i64,
                z: s.position.z,
            },
            vertical_velocity: v as i64,
            grounded: false,
        }
    }
}

/// The state after the jump key has been looked at.
pub open spec fn jumped(s: LocomotionState, jump_pressed: bool) -> LocomotionState {
    if s.grounded && jump_pressed {
        LocomotionState { vertical_velocity: JUMP_FORCE, ..s }
    } else {
        s
    }
}

/// The camera as contracts speak of it.
pub open spec fn camera_value(camera: Option<&CameraYaw>) -> Option<CameraYaw> {
    match camera {
        Some(c) => Some(*c),
        None => None,
    }
}

/// The state after the horizontal move. Without a camera nothing moves.
pub open spec fn walked(
    s: LocomotionState,
    input: InputSnapshot,
    camera: Option<CameraYaw>,
    colliders: Seq<Vec3>,
    dt: int,
) -> LocomotionState {
    match camera {
        None => s,
        Some(c) => {
            let delta = move_delta(input, c, dt);
            LocomotionState { position: slid(s.position, delta.0, delta.1, colliders), ..s }
        },
    }
}

/// The vertical integrator. At or below the ground the entity is put on the
/// ground, at rest. Above it, gravity first changes the velocity and the
/// new velocity then changes the height.
pub fn apply_gravity(state: &mut LocomotionState, dt: i64)
    ensures
        *final(state) == fallen(*old(state), dt as int),
        old(state).position.y <= GROUND_Y ==> final(state).position.y == GROUND_Y
            && final(state).vertical_velocity == 0 && final(state).grounded,
        final(state).grounded <==> old(state).position.y <= GROUND_Y,
        final(state).grounded ==> final(state).position.y == GROUND_Y
            && final(state).vertical_velocity == 0,
        final(state).position.x == old(state).position.x,
        final(state).position.z == old(state).position.z,
{
    if state.position.y <= GROUND_Y {
        state.position.y = GROUND_Y;
        state.vertical_velocity = 0;
        state.grounded = true;
    } else {
        let gain: i128 = mul_scaled(GRAVITY, dt);
        let velocity: i64 = saturate(state.vertical_velocity as i128 + gain);
        let rise: i128 = mul_scaled(velocity, dt);
        state.vertical_velocity = velocity;
        state.position.y = saturate(state.position.y as i128 + rise);
        state.grounded = false;
    }
}

/// The jump. It takes hold only of an entity that the vertical integrator
/// has found on the ground, and only in the tick in which the key went down.
pub fn handle_jumping(state: &mut LocomotionState, jump_pressed: bool)
    ensures
        *final(state) == jumped(*old(state), jump_pressed),
        !old(state).grounded ==> *final(state) == *old(state),
        final(state).position == old(state).position,
        final(state).grounded == old(state).grounded,
{
    if state.grounded && jump_pressed {
        state.vertical_velocity = JUMP_FORCE;
    }
}

/// The pull of two opposite keys along one axis.
fn axis_of(negative: bool, positive: bool) -> (r: i64)
    ensures
        r == axis(negative, positive),
{
    let toward: i64 = if positive { 1 } else { 0 };
    let away: i64 = if negative { 1 } else { 0 };
    toward - away
}

/// Composes the four movement keys into a direction of length one or zero.
/// Opposite keys cancel; two keys at right angles give a diagonal.
pub fn direction_from_input(input: &InputSnapshot) -> (r: (i64, i64))
    ensures
        (r.0 as int, r.1 as int) == input_direction(*input),
        -SCALE <= r.0 <= SCALE,
        -SCALE <= r.1 <= SCALE,
{
    let x: i64 = axis_of(input.left, input.right);
    let z: i64 = axis_of(input.forward, input.back);
    if x != 0 && z != 0 {
        (x * UNIT_DIAGONAL, z * UNIT_DIAGONAL)
    } else {
        (x * SCALE, z * SCALE)
    }
}

/// Turns a direction of length at most one about the vertical axis.
fn rotate_by_yaw(x: i64, z: i64, camera: &CameraYaw) -> (r: (i64, i64))
    requires
        -SCALE <= x <= SCALE,
        -SCALE <= z <= SCALE,
    ensures
        (r.0 as int, r.1 as int) == rotated((x as int, z as int), *camera),
        -2 * SCALE <= r.0 <= 2 * SCALE,
        -2 * SCALE <= r.1 <= 2 * SCALE,
{
    let sin: i64 = camera.sin();
    let cos: i64 = camera.cos();
    proof {
        let unit = SCALE as int;
        lemma_product_bound(x as int, cos as int, unit, unit);
        lemma_product_bound(z as int, sin as int, unit, unit);
        lemma_product_bound(z as int, cos as int, unit, unit);
        lemma_product_bound(x as int, sin as int, unit, unit);
        lemma_trunc_div_bound(x * cos + z * sin, unit, 2 * unit * unit);
        lemma_trunc_div_bound(z * cos - x * sin, unit, 2 * unit * unit);
        lemma_quotient_of_bounded(x * cos + z * sin, unit, 2 * unit);
        lemma_quotient_of_bounded(z * cos - x * sin, unit, 2 * unit);
    }
    let along_x: i128 = (x as i128) * (cos as i128) + (z as i128) * (sin as i128);
    let along_z: i128 = (z as i128) * (cos as i128) - (x as i128) * (sin as i128);
    let world_x: i128 = div_toward_zero(along_x, SCALE as i128);
    let world_z: i128 = div_toward_zero(along_z, SCALE as i128);
    (world_x as i64, world_z as i64)
}

/// A value within `d * m` of zero, divided by `d`, lies within `m` of zero.
proof fn lemma_quotient_of_bounded(p: int, d: int, m: int)
    by (nonlinear_arith)
    requires
        d >= 1,
        m >= 0,
        -(d * m) <= p <= d * m,
    ensures
        -m <= trunc_div(p, d) <= m,
{
}

/// One component of the displacement: a component of the direction times
/// the distance that the entity covers in the tick.
fn component_times_reach(component: i64, reach: i128) -> (r: i64)
    requires
        -2 * SCALE <= component <= 2 * SCALE,
        -0x10_0000_0000_0000_0000 <= reach <= 0x10_0000_0000_0000_0000,
    ensures
        r == saturated(scaled(component as int, reach as int)),
{
    proof {
        lemma_product_bound(
            component as int,
            reach as int,
            2 * SCALE as int,
            0x10_0000_0000_0000_0000,
        );
    }
    let product: i128 = (component as i128) * reach;
    saturate(div_toward_zero(product, SCALE as i128))
}

/// The displacement along `x` and `z` that the keys ask for in a tick of
/// length `dt`, seen from a camera with the given yaw.
pub fn movement_delta(input: &InputSnapshot, camera: &CameraYaw, dt: i64) -> (r: (i64, i64))
    ensures
        (r.0 as int, r.1 as int) == move_delta(*input, *camera, dt as int),
{
    let (x, z) = direction_from_input(input);
    let (world_x, world_z) = rotate_by_yaw(x, z, camera);
    let reach: i128 = mul_scaled(PLAYER_SPEED, dt);
    proof {
        lemma_quotient_of_bounded(
            PLAYER_SPEED * dt,
            SCALE as int,
            0x10_0000_0000_0000_0000,
        );
    }
    (component_times_reach(world_x, reach), component_times_reach(world_z, reach))
}

/// Moves an entity by `dx` and `dz` with sliding: first along `x`, then
/// along `z` from where that has left it, each only into a free place.
pub fn slide(position: Vec3, dx: i64, dz: i64, colliders: &[Vec3]) -> (r: Vec3)
    ensures
        r == slid(position, dx as int, dz as int, colliders@),
        r.y == position.y,
{
    let mut current = position;
    let along_x = shift(current, dx, 0);
    if !is_position_blocked(along_x, colliders) {
        current.x = along_x.x;
    }
    let along_z = shift(current, 0, dz);
    if !is_position_blocked(along_z, colliders) {
        current.z = along_z.z;
    }
    current
}

/// The horizontal locomotion of one tick. The keys give a direction, the
/// camera turns it into world space, speed and `dt` give it a length, and
/// the colliders decide axis by axis how much of it is taken. Without a
/// camera the entity stays where it is.
pub fn move_player(
    state: &mut LocomotionState,
    input: &InputSnapshot,
    camera: Option<&CameraYaw>,
    colliders: &[Vec3],
    dt: i64,
)
    ensures
        *final(state) == walked(
            *old(state),
            *input,
            camera_value(camera),
            colliders@,
            dt as int,
        ),
        camera is None ==> *final(state) == *old(state),
        final(state).position.y == old(state).position.y,
        final(state).vertical_velocity == old(state).vertical_velocity,
        final(state).grounded == old(state).grounded,
{
    match camera {
        None => {},
        Some(yaw) => {
            let (dx, dz) = movement_delta(input, yaw, dt);
            state.position = slide(state.position, dx, dz, colliders);
        },
    }
}

} // verus!
