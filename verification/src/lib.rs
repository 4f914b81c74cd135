//! Locomotion and collision core of a multiplayer game client.
//!
//! Each simulation tick advances the locally controlled entity from the
//! player's input, gravity and the static colliders of the world, unless the
//! server has declared the player dead.
//!
//! * [`authority`] derives from the server's last report whether locomotion
//!   runs at all.
//! * [`physics`] holds the vertical integrator (ground, gravity, jump) and
//!   the horizontal move with sliding along colliders.
//! * [`collision`] holds the overlap test and the corrector that frees an
//!   entity found inside a collider.
//! * [`tick`] runs them in order.
//! * [`laws`] states what holds of every tick.
//!
//! All quantities are whole numbers of millionths ([`fixed`]): positions in
//! millionths of a world unit, velocities in millionths of a unit per
//! second, durations in microseconds. Nothing here panics or overflows; a
//! value too large to store is stored as the largest that fits.

pub mod fixed;
pub mod state;
pub mod collision;
pub mod physics;
pub mod authority;
pub mod tick;
pub mod laws;
