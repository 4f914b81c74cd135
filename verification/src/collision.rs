//! Static colliders: the overlap test, and the corrector that frees an
//! entity found inside one.
//!
//! A collider is a pillar with a square footprint of half-extent
//! [`WALL_SIZE`] round its centre, and no bounds in height. The entity is a
//! point; its radius is added to the pillar's half-extent, axis by axis.

use vstd::prelude::*;
use crate::fixed::{distance, saturate, saturated};
use crate::state::{LocomotionState, Vec3};

verus! {

/// The radius of the controlled entity.
pub const PLAYER_RADIUS: i64 = 500_000;

/// The half-extent of every collider.
pub const WALL_SIZE: i64 = 3_000_000;

/// How far the corrector moves an embedded entity in one try.
pub const UNSTICK_OFFSET: i64 = 100_000;

/// The entity at `p` touches the collider centred at `c`: on both ground
/// axes the two are closer than radius and half-extent together. The test
/// is the square one on purpose; heights play no part.
pub open spec fn overlaps(p: Vec3, c: Vec3) -> bool {
    &&& distance(p.x as int, c.x as int) < PLAYER_RADIUS + WALL_SIZE
    &&& distance(p.z as int, c.z as int) < PLAYER_RADIUS + WALL_SIZE
}

/// The entity at `p` touches one of the colliders.
pub open spec fn blocked(p: Vec3, colliders: Seq<Vec3>) -> bool {
    exists|i: int| 0 <= i < colliders.len() && overlaps(p, #[trigger] colliders[i])
}

/// `p` moved along the ground by `dx` and `dz`, each coordinate kept
/// within `i64`.
pub open spec fn shifted(p: Vec3, dx: int, dz: int) -> Vec3 {
    Vec3 { x: saturated(p.x + dx) as i64, y: p.y, z: saturated(p.z + dz) as i64 }
}

/// Where the corrector leaves an entity that stands at `p`: at `p` if it is
/// free there; else at the first free place among one offset toward
/// positive `x`, negative `x`, positive `z`, negative `z`; else at `p`.
pub open spec fn unstuck(p: Vec3, colliders: Seq<Vec3>) -> Vec3 {
    if !blocked(p, colliders) {
        p
    } else if !blocked(shifted(p, UNSTICK_OFFSET as int, 0), colliders) {
        shifted(p, UNSTICK_OFFSET as int, 0)
    } else if !blocked(shifted(p, -UNSTICK_OFFSET, 0), colliders) {
        shifted(p, -UNSTICK_OFFSET, 0)
    } else if !blocked(shifted(p, 0, UNSTICK_OFFSET as int), colliders) {
        shifted(p, 0, UNSTICK_OFFSET as int)
    } else if !blocked(shifted(p, 0, -UNSTICK_OFFSET), colliders) {
        shifted(p, 0, -UNSTICK_OFFSET)
    } else {
        p
    }
}

/// The corrector has nothing to do at `p`: the entity is free there, or
/// none of the four places that the corrector tries is.
pub open spec fn settled(p: Vec3, colliders: Seq<Vec3>) -> bool {
    blocked(p, colliders) ==> {
        &&& blocked(shifted(p, UNSTICK_OFFSET as int, 0), colliders)
        &&& blocked(shifted(p, -UNSTICK_OFFSET, 0), colliders)
        &&& blocked(shifted(p, 0, UNSTICK_OFFSET as int), colliders)
        &&& blocked(shifted(p, 0, -UNSTICK_OFFSET), colliders)
    }
}

/// Whether two coordinates are closer than radius and half-extent together.
fn within_reach(a: i64, b: i64) -> (r: bool)
    ensures
        r == (distance(a as int, b as int) < PLAYER_RADIUS + WALL_SIZE),
{
    let d: i128 = a as i128 - b as i128;
    let gap: i128 = if d >= 0 { d } else { -d };
    gap < (PLAYER_RADIUS + WALL_SIZE) as i128
}

/// Tests the entity at `p` against one collider.
pub fn overlaps_collider(p: Vec3, c: Vec3) -> (r: bool)
    ensures
        r == overlaps(p, c),
{
    within_reach(p.x, c.x) && within_reach(p.z, c.z)
}

/// Tests the entity at `player_pos` against every collider.
pub fn is_position_blocked(player_pos: Vec3, colliders: &[Vec3]) -> (r: bool)
    ensures
        r == blocked(player_pos, colliders@),
{
    let mut i: usize = 0;
    while i < colliders.len()
        invariant
            i <= colliders.len(),
            forall|j: int| 0 <= j < i ==> !overlaps(player_pos, #[trigger] colliders@[j]),
        decreases colliders.len() - i,
    {
        if overlaps_collider(player_pos, colliders[i]) {
            return true;
        }
        i += 1;
    }
    false
}

/// Moves a point along the ground.
pub fn shift(p: Vec3, dx: i64, dz: i64) -> (r: Vec3)
    ensures
        r == shifted(p, dx as int, dz as int),
{
    Vec3 {
        x: saturate(p.x as i128 + dx as i128),
        y: p.y,
        z: saturate(p.z as i128 + dz as i128),
    }
}

/// The stuck-position corrector. An entity that touches a collider is moved
/// to the first of four nearby places that is free; where none is, or where
/// it touches nothing, it stays. Height, velocity and the grounded flag are
/// not its business.
pub fn handle_collisions(state: &mut LocomotionState, colliders: &[Vec3])
    ensures
        *final(state) == (LocomotionState {
            position: unstuck(old(state).position, colliders@),
            ..*old(state)
        }),
        settled(old(state).position, colliders@) <==> *final(state) == *old(state),
        final(state).position != old(state).position ==> !blocked(
            final(state).position,
            colliders@,
        ),
        final(state).position.y == old(state).position.y,
{
    let pos = state.position;
    if is_position_blocked(pos, colliders) {
        let plus_x = shift(pos, UNSTICK_OFFSET, 0);
        let minus_x = shift(pos, -UNSTICK_OFFSET, 0);
        let plus_z = shift(pos, 0, UNSTICK_OFFSET);
        let minus_z = shift(pos, 0, -UNSTICK_OFFSET);
        if !is_position_blocked(plus_x, colliders) {
            state.position = plus_x;
        } else if !is_position_blocked(minus_x, colliders) {
            state.position = minus_x;
        } else if !is_position_blocked(plus_z, colliders) {
            state.position = plus_z;
        } else if !is_position_blocked(minus_z, colliders) {
            state.position = minus_z;
        }
    }
}

} // verus!
