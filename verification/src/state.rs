//! The values that a tick reads and writes.

use vstd::prelude::*;
use crate::fixed::{lemma_product_bound, SCALE};

verus! {

/// A point or a displacement in world space, in millionths of a unit.
/// `y` is the height; the ground is the plane of `x` and `z`.
#[derive(Clone, Copy, Debug, PartialEq, Eq, Structural)]
pub struct Vec3 {
    pub x: i64,
    pub y: i64,
    pub z: i64,
}

impl Vec3 {
    pub fn new(x: i64, y: i64, z: i64) -> (r: Vec3)
        ensures
            r == (Vec3 { x, y, z }),
    {
        Vec3 { x, y, z }
    }
}

/// What the simulation owns of the controlled entity.
#[derive(Clone, Copy, Debug, PartialEq, Eq, Structural)]
pub struct LocomotionState {
    pub position: Vec3,
    /// In millionths of a unit per second; positive is upward.
    pub vertical_velocity: i64,
    /// Whether the last vertical step found the entity resting on the ground.
    pub grounded: bool,
}

impl LocomotionState {
    /// The state of an entity that has just been placed at `spawn_point`:
    /// at rest, and not yet known to be on the ground.
    pub fn new(spawn_point: Vec3) -> (r: LocomotionState)
        ensures
            r == (LocomotionState { position: spawn_point, vertical_velocity: 0, grounded: false }),
    {
        LocomotionState { position: spawn_point, vertical_velocity: 0, grounded: false }
    }

    /// Puts the entity back at `spawn_point` with no vertical velocity.
    /// Whether it is on the ground is left for the next tick to find out.
    pub fn respawn(&mut self, spawn_point: Vec3)
        ensures
            *final(self) == (LocomotionState {
                position: spawn_point,
                vertical_velocity: 0,
                grounded: old(self).grounded,
            }),
    {
        self.position = spawn_point;
        self.vertical_velocity = 0;
    }
}

/// The keys that matter to locomotion, as sampled for one tick.
#[derive(Clone, Copy, Debug, PartialEq, Eq, Structural)]
pub struct InputSnapshot {
    pub forward: bool,
    pub back: bool,
    pub left: bool,
    pub right: bool,
    /// True only in the tick in which the jump key went down.
    pub jump_pressed: bool,
}

impl InputSnapshot {
    /// No key is held.
    pub fn idle() -> (r: InputSnapshot)
        ensures
            r == (InputSnapshot {
                forward: false,
                back: false,
                left: false,
                right: false,
                jump_pressed: false,
            }),
    {
        InputSnapshot { forward: false, back: false, left: false, right: false, jump_pressed: false }
    }
}

/// How far the squares of sine and cosine together may lie from one, in
/// millionths of a millionth. Rounding each part to the nearest millionth
/// stays well within it.
pub const UNIT_SLACK: i64 = 4_000_000;

/// `sin` and `cos`, in millionths, are the sine and cosine of one angle as
/// nearly as millionths can say.
pub open spec fn is_rotation(sin: int, cos: int) -> bool {
    &&& -SCALE <= sin <= SCALE
    &&& -SCALE <= cos <= SCALE
    &&& SCALE * SCALE - UNIT_SLACK <= sin * sin + cos * cos <= SCALE * SCALE + UNIT_SLACK
}

/// The camera's rotation about the vertical axis, held as the sine and the
/// cosine of the yaw angle in millionths. Pitch and roll have no part in it.
#[derive(Clone, Copy, Debug, PartialEq, Eq)]
pub struct CameraYaw {
    sin: i64,
    cos: i64,
}

impl CameraYaw {
    /// The sine of the yaw angle, in millionths.
    pub closed spec fn sin_part(self) -> int {
        self.sin as int
    }

    /// The cosine of the yaw angle, in millionths.
    pub closed spec fn cos_part(self) -> int {
        self.cos as int
    }

    /// The two parts belong to one angle.
    #[verifier::type_invariant]
    pub open spec fn wf(self) -> bool {
        is_rotation(self.sin_part(), self.cos_part())
    }

    /// A yaw from its sine and cosine; `None` where the two are not the
    /// sine and cosine of one angle.
    pub fn new(sin: i64, cos: i64) -> (r: Option<CameraYaw>)
        ensures
            r is Some <==> is_rotation(sin as int, cos as int),
            r matches Some(c) ==> c.wf() && c.sin_part() == sin && c.cos_part() == cos,
    {
        if -SCALE <= sin && sin <= SCALE && -SCALE <= cos && cos <= SCALE {
            proof {
                lemma_product_bound(sin as int, sin as int, SCALE as int, SCALE as int);
                lemma_product_bound(cos as int, cos as int, SCALE as int, SCALE as int);
                assert(SCALE * SCALE == 1_000_000_000_000) by (nonlinear_arith);
            }
            let norm: i64 = sin * sin + cos * cos;
            if SCALE * SCALE - UNIT_SLACK <= norm && norm <= SCALE * SCALE + UNIT_SLACK {
                Some(CameraYaw { sin, cos })
            } else {
                None
            }
        } else {
            None
        }
    }

    /// The camera that looks down the negative `z` axis: a yaw of zero.
    pub fn level() -> (r: CameraYaw)
        ensures
            r.wf(),
            r.sin_part() == 0,
            r.cos_part() == SCALE,
    {
        proof {
            assert(SCALE * SCALE == 1_000_000_000_000) by (nonlinear_arith);
            assert(0int * 0 + SCALE * SCALE == 1_000_000_000_000);
        }
        CameraYaw { sin: 0, cos: SCALE }
    }

    pub fn sin(&self) -> (r: i64)
        ensures
            r == self.sin_part(),
            -SCALE <= r <= SCALE,
    {
        proof {
            use_type_invariant(self);
        }
        self.sin
    }

    pub fn cos(&self) -> (r: i64)
        ensures
            r == self.cos_part(),
            -SCALE <= r <= SCALE,
    {
        proof {
            use_type_invariant(self);
        }
        self.cos
    }
}

} // verus!
