//! One simulation tick: vertical integrator and horizontal locomotion
//! where the authority lets them run, then the stuck-position corrector.

use vstd::prelude::*;
use crate::authority::{update_death_state, DeathState, GameData};
use crate::collision::{handle_collisions, settled, unstuck};
use crate::physics::{
    apply_gravity, camera_value, fallen, handle_jumping, jumped, move_player, walked,
};
use crate::state::{CameraYaw, InputSnapshot, LocomotionState, Vec3};

verus! {

/// The state after the part of a tick that runs only while locomotion is
/// enabled: gravity, then the jump, then the horizontal move.
pub open spec fn locomoted(
    s: LocomotionState,
    enabled: bool,
    input: InputSnapshot,
    camera: Option<CameraYaw>,
    colliders: Seq<Vec3>,
    dt: int,
) -> LocomotionState {
    if enabled {
        walked(jumped(fallen(s, dt), input.jump_pressed), input, camera, colliders, dt)
    } else {
        s
    }
}

/// The state after a whole tick. The corrector runs last, and always.
pub open spec fn ticked(
    s: LocomotionState,
    enabled: bool,
    input: InputSnapshot,
    camera: Option<CameraYaw>,
    colliders: Seq<Vec3>,
    dt: int,
) -> LocomotionState {
    let t = locomoted(s, enabled, input, camera, colliders, dt);
    LocomotionState { position: unstuck(t.position, colliders), ..t }
}

/// Advances the entity by one tick of length `dt`.
///
/// With `enabled` false neither gravity nor the keys touch the state. The
/// stuck-position corrector runs either way, so that a dead player who
/// stands inside a collider is free by the time of the respawn.
pub fn tick(
    state: &mut LocomotionState,
    enabled: bool,
    input: &InputSnapshot,
    camera: Option<&CameraYaw>,
    colliders: &[Vec3],
    dt: i64,
)
    ensures
        *final(state) == ticked(
            *old(state),
            enabled,
            *input,
            camera_value(camera),
            colliders@,
            dt as int,
        ),
        !enabled ==> *final(state) == (LocomotionState {
            position: unstuck(old(state).position, colliders@),
            ..*old(state)
        }),
        !enabled && settled(old(state).position, colliders@) ==> *final(state) == *old(state),
{
    if enabled {
        apply_gravity(state, dt);
        handle_jumping(state, input.jump_pressed);
        move_player(state, input, camera, colliders, dt);
    }
    handle_collisions(state, colliders);
}

/// A whole tick from what the server has last reported: derives the death
/// state, and advances the entity, enabled or not as that state says.
pub fn simulate_tick(
    game_data: &GameData,
    death_state: &mut DeathState,
    state: &mut LocomotionState,
    input: &InputSnapshot,
    camera: Option<&CameraYaw>,
    colliders: &[Vec3],
    dt: i64,
)
    ensures
        final(death_state).is_dead == !game_data.locomotion_enabled(),
        *final(state) == ticked(
            *old(state),
            game_data.locomotion_enabled(),
            *input,
            camera_value(camera),
            colliders@,
            dt as int,
        ),
{
    update_death_state(game_data, death_state);
    tick(state, !death_state.is_dead, input, camera, colliders, dt);
}

} // verus!
