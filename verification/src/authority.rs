//! The authority gate: whether the server lets the local player move.
//!
//! The server alone says who is alive. The client keeps what it was last
//! told, and derives from it, before every tick, whether locomotion runs.

use vstd::prelude::*;
use vstd::hash_map::StringHashMap;

verus! {

/// What the server has last reported of one player, as far as locomotion
/// reads it.
#[derive(Clone, Copy, Debug, PartialEq, Eq, Structural)]
pub struct Player {
    pub is_alive: bool,
}

/// The client's copy of the server's state: who the local player is, once
/// the server has said so, and the players by their ids.
pub struct GameData {
    pub my_id: Option<String>,
    pub players: StringHashMap<Player>,
}

/// Whether the local player is dead. Derived from [`GameData`] before every
/// tick, and read by whatever shows or hides on death.
#[derive(Clone, Copy, Debug, PartialEq, Eq, Structural)]
pub struct DeathState {
    pub is_dead: bool,
}

impl Default for DeathState {
    fn default() -> (r: DeathState)
        ensures
            !r.is_dead,
    {
        DeathState { is_dead: false }
    }
}

impl GameData {
    /// The local player's id, if the server has given one.
    pub open spec fn local_id(self) -> Option<Seq<char>> {
        match self.my_id {
            Some(id) => Some(id@),
            None => None,
        }
    }

    /// What the server says of the local player: `Some(alive)` once both the
    /// local id and a record under it are known, `None` before.
    pub open spec fn local_liveness(self) -> Option<bool> {
        match self.local_id() {
            Some(id) => if self.players@.contains_key(id) {
                Some(self.players@[id].is_alive)
            } else {
                None
            },
            None => None,
        }
    }

    /// Locomotion runs unless the server has reported the local player
    /// dead. As long as nothing is known of the local player, it runs.
    pub open spec fn locomotion_enabled(self) -> bool {
        match self.local_liveness() {
            Some(alive) => alive,
            None => true,
        }
    }

    /// A client that has heard nothing from the server yet.
    pub fn new() -> (r: GameData)
        ensures
            r.my_id is None,
            r.players@ == Map::<Seq<char>, Player>::empty(),
    {
        GameData { my_id: None, players: StringHashMap::new() }
    }

    /// Records the id that the server has given the local player.
    pub fn set_my_id(&mut self, id: String)
        ensures
            final(self).my_id == Some(id),
            final(self).players@ == old(self).players@,
    {
        self.my_id = Some(id);
    }

    /// Records what the server reports of the player `id`, in place of
    /// whatever was known of that player before.
    pub fn set_player(&mut self, id: String, player: Player)
        ensures
            final(self).my_id == old(self).my_id,
            final(self).players@ == old(self).players@.insert(id@, player),
    {
        self.players.insert(id, player);
    }

    /// Forgets the player `id`.
    pub fn remove_player(&mut self, id: &str)
        ensures
            final(self).my_id == old(self).my_id,
            final(self).players@ == old(self).players@.remove(id@),
    {
        self.players.remove(id);
    }
}

/// The authority gate. True where locomotion may run in this tick.
pub fn authority_gate(game_data: &GameData) -> (enabled: bool)
    ensures
        enabled == game_data.locomotion_enabled(),
{
    match &game_data.my_id {
        Some(id) => match game_data.players.get(id.as_str()) {
            Some(player) => player.is_alive,
            None => true,
        },
        None => true,
    }
}

/// Brings the death state up to what the server has last reported.
pub fn update_death_state(game_data: &GameData, death_state: &mut DeathState)
    ensures
        final(death_state).is_dead == !game_data.locomotion_enabled(),
{
    death_state.is_dead = !authority_gate(game_data);
}

/// Whether to ask the server for a respawn: only a dead player may, and
/// only in the tick in which the respawn key went down.
pub fn handle_manual_respawn(death_state: &DeathState, respawn_pressed: bool) -> (request: bool)
    ensures
        request == (death_state.is_dead && respawn_pressed),
{
    death_state.is_dead && respawn_pressed
}

} // verus!
